use vstd::prelude::*;

use crate::backend::DaemonBackend;
use std::collections::HashMap;
use std::collections::HashSet;

verus! {

// The types of the liana crate that appear in the session's signatures.
// Each is declared opaque: the wrapper carries these values through without
// reading them.

#[verifier::external_type_specification]
#[verifier::external_body]
pub struct ExConfig(liana::config::Config);

#[verifier::external_type_specification]
#[verifier::external_body]
pub struct ExDaemonHandle(liana::DaemonHandle);

#[verifier::external_type_specification]
#[verifier::external_body]
pub struct ExGetInfoResult(liana::commands::GetInfoResult);

#[verifier::external_type_specification]
#[verifier::external_body]
pub struct ExGetAddressResult(liana::commands::GetAddressResult);

#[verifier::external_type_specification]
#[verifier::external_body]
pub struct ExCoinStatus(liana::commands::CoinStatus);

#[verifier::external_type_specification]
#[verifier::external_body]
pub struct ExLabelItem(liana::commands::LabelItem);

#[verifier::external_type_specification]
#[verifier::external_body]
pub struct ExListCoinsResult(liana::commands::ListCoinsResult);

#[verifier::external_type_specification]
#[verifier::external_body]
pub struct ExListSpendResult(liana::commands::ListSpendResult);

#[verifier::external_type_specification]
#[verifier::external_body]
pub struct ExListTransactionsResult(liana::commands::ListTransactionsResult);

#[verifier::external_type_specification]
#[verifier::external_body]
pub struct ExCreateSpendResult(liana::commands::CreateSpendResult);

#[verifier::external_type_specification]
#[verifier::external_body]
pub struct ExOutPoint(liana::miniscript::bitcoin::OutPoint);

#[verifier::external_type_specification]
#[verifier::external_body]
pub struct ExTxid(liana::miniscript::bitcoin::Txid);

#[verifier::external_type_specification]
#[verifier::external_body]
pub struct ExPsbt(liana::miniscript::bitcoin::psbt::Psbt);

/// A destination address for the spend and recovery operations, carried
/// opaquely: the underlying address type cannot be named in verified
/// signatures (its type parameter is bound by an outside trait), so the
/// value rides in a holder whose inside only the liana calls read.
#[verifier::external_body]
pub struct RecipientAddress {
    pub inner: liana::miniscript::bitcoin::Address<
        liana::miniscript::bitcoin::address::NetworkUnchecked,
    >,
}

/// The production daemon-control capability: one live liana daemon,
/// embedded in this process. The lifecycle guarantees of the wrapper are
/// stated and proved over the generic capability; this binding only hands
/// each call to the liana crate.
pub struct LianaSession {
    handle: liana::DaemonHandle,
}

// The trusted wrappers around the liana calls. Each body hands the call to
// the liana crate and converts nothing but the error rendering; none of
// them promises anything about the payloads it returns.
impl LianaSession {
    /// Relies on liana::DaemonHandle::start_default: it launches the daemon
    /// with the default Bitcoin and database interfaces and returns the
    /// handle, or the startup error, rendered here as text.
    #[verifier::external_body]
    fn start_raw(config: &liana::config::Config) -> Result<LianaSession, String> {
        match liana::DaemonHandle::start_default(config.clone()) {
            Ok(handle) => Ok(LianaSession { handle }),
            Err(e) => Err(e.to_string()),
        }
    }

    /// Relies on liana::DaemonHandle::is_alive: it reports whether the
    /// daemon's poller thread is still running.
    #[verifier::external_body]
    fn probe_alive_raw(&self) -> bool {
        self.handle.is_alive()
    }

    /// Relies on liana::DaemonHandle::stop: it shuts the daemon down,
    /// consuming the handle, and returns any error the daemon terminated
    /// with, rendered here as text.
    #[verifier::external_body]
    fn shutdown_raw(self) -> Result<(), String> {
        self.handle.stop().map_err(|e| e.to_string())
    }

    /// Relies on liana::commands::DaemonControl::get_info.
    #[verifier::external_body]
    fn get_info_raw(&self) -> liana::commands::GetInfoResult {
        let liana::DaemonHandle::Controller { control, .. } = &self.handle;
        control.get_info()
    }

    /// Relies on liana::commands::DaemonControl::get_new_address.
    #[verifier::external_body]
    fn get_new_address_raw(&self) -> liana::commands::GetAddressResult {
        let liana::DaemonHandle::Controller { control, .. } = &self.handle;
        control.get_new_address()
    }

    /// Relies on liana::commands::DaemonControl::list_coins.
    #[verifier::external_body]
    fn list_coins_raw(
        &self,
        statuses: &[liana::commands::CoinStatus],
        outpoints: &[liana::miniscript::bitcoin::OutPoint],
    ) -> liana::commands::ListCoinsResult {
        let liana::DaemonHandle::Controller { control, .. } = &self.handle;
        control.list_coins(statuses, outpoints)
    }

    /// Relies on liana::commands::DaemonControl::list_spend, queried
    /// without a filter, with its error rendered as text.
    #[verifier::external_body]
    fn list_spend_txs_raw(&self) -> Result<liana::commands::ListSpendResult, String> {
        let liana::DaemonHandle::Controller { control, .. } = &self.handle;
        control.list_spend(None).map_err(|e| e.to_string())
    }

    /// Relies on liana::commands::DaemonControl::list_confirmed_transactions.
    #[verifier::external_body]
    fn list_confirmed_txs_raw(
        &self,
        start: u32,
        end: u32,
        limit: u64,
    ) -> liana::commands::ListTransactionsResult {
        let liana::DaemonHandle::Controller { control, .. } = &self.handle;
        control.list_confirmed_transactions(start, end, limit)
    }

    /// Relies on liana::commands::DaemonControl::list_transactions.
    #[verifier::external_body]
    fn list_txs_raw(
        &self,
        txids: &[liana::miniscript::bitcoin::Txid],
    ) -> liana::commands::ListTransactionsResult {
        let liana::DaemonHandle::Controller { control, .. } = &self.handle;
        control.list_transactions(txids)
    }

    /// Relies on liana::commands::DaemonControl::create_spend, with its
    /// error rendered as text. The destinations are collected into a map
    /// keyed by address before the call, so entries repeating an address
    /// collapse to the last one: a caller who wants every entry forwarded
    /// must not repeat an address.
    #[verifier::external_body]
    fn create_spend_tx_raw(
        &self,
        coins_outpoints: &[liana::miniscript::bitcoin::OutPoint],
        destinations: &Vec<(RecipientAddress, u64)>,
        feerate_vb: u64,
        change_address: Option<RecipientAddress>,
    ) -> Result<liana::commands::CreateSpendResult, String> {
        let dests: HashMap<_, _> = destinations.iter().map(|(a, v)| (a.inner.clone(), *v)).collect();
        let liana::DaemonHandle::Controller { control, .. } = &self.handle;
        control
            .create_spend(&dests, coins_outpoints, feerate_vb, change_address.map(|a| a.inner))
            .map_err(|e| e.to_string())
    }

    /// Relies on liana::commands::DaemonControl::rbf_psbt, with its error
    /// rendered as text.
    #[verifier::external_body]
    fn rbf_psbt_raw(
        &self,
        txid: &liana::miniscript::bitcoin::Txid,
        is_cancel: bool,
        feerate_vb: Option<u64>,
    ) -> Result<liana::commands::CreateSpendResult, String> {
        let liana::DaemonHandle::Controller { control, .. } = &self.handle;
        control.rbf_psbt(txid, is_cancel, feerate_vb).map_err(|e| e.to_string())
    }

    /// Relies on liana::commands::DaemonControl::update_spend, handed a
    /// clone of the transaction, with its error rendered as text.
    #[verifier::external_body]
    fn update_spend_tx_raw(
        &self,
        psbt: &liana::miniscript::bitcoin::psbt::Psbt,
    ) -> Result<(), String> {
        let liana::DaemonHandle::Controller { control, .. } = &self.handle;
        control.update_spend(psbt.clone()).map_err(|e| e.to_string())
    }

    /// Relies on liana::commands::DaemonControl::delete_spend.
    #[verifier::external_body]
    fn delete_spend_tx_raw(&self, txid: &liana::miniscript::bitcoin::Txid) {
        let liana::DaemonHandle::Controller { control, .. } = &self.handle;
        control.delete_spend(txid)
    }

    /// Relies on liana::commands::DaemonControl::broadcast_spend, with its
    /// error rendered as text.
    #[verifier::external_body]
    fn broadcast_spend_tx_raw(&self, txid: &liana::miniscript::bitcoin::Txid) -> Result<
        (),
        String,
    > {
        let liana::DaemonHandle::Controller { control, .. } = &self.handle;
        control.broadcast_spend(txid).map_err(|e| e.to_string())
    }

    /// Relies on liana::commands::DaemonControl::start_rescan, with its
    /// error rendered as text.
    #[verifier::external_body]
    fn start_rescan_raw(&self, timestamp: u32) -> Result<(), String> {
        let liana::DaemonHandle::Controller { control, .. } = &self.handle;
        control.start_rescan(timestamp).map_err(|e| e.to_string())
    }

    /// Relies on liana::commands::DaemonControl::create_recovery, keeping
    /// the transaction out of its result, with its error rendered as text.
    #[verifier::external_body]
    fn create_recovery_raw(
        &self,
        address: RecipientAddress,
        feerate_vb: u64,
        sequence: Option<u16>,
    ) -> Result<liana::miniscript::bitcoin::psbt::Psbt, String> {
        let liana::DaemonHandle::Controller { control, .. } = &self.handle;
        control
            .create_recovery(address.inner, feerate_vb, sequence)
            .map(|res| res.psbt)
            .map_err(|e| e.to_string())
    }

    /// Relies on liana::commands::DaemonControl::get_labels, keeping the
    /// label map out of its result.
    #[verifier::external_body]
    fn get_labels_raw(
        &self,
        items: &HashSet<liana::commands::LabelItem>,
    ) -> HashMap<String, String> {
        let liana::DaemonHandle::Controller { control, .. } = &self.handle;
        control.get_labels(items).labels
    }

    /// Relies on liana::commands::DaemonControl::update_labels.
    #[verifier::external_body]
    fn update_labels_raw(&self, items: &HashMap<liana::commands::LabelItem, Option<String>>) {
        let liana::DaemonHandle::Controller { control, .. } = &self.handle;
        control.update_labels(items)
    }
}

impl DaemonBackend for LianaSession {
    type Config = liana::config::Config;

    type Info = liana::commands::GetInfoResult;

    type AddressReport = liana::commands::GetAddressResult;

    type Address = RecipientAddress;

    type CoinStatus = liana::commands::CoinStatus;

    type OutPoint = liana::miniscript::bitcoin::OutPoint;

    type Coins = liana::commands::ListCoinsResult;

    type SpendList = liana::commands::ListSpendResult;

    type Txid = liana::miniscript::bitcoin::Txid;

    type Transactions = liana::commands::ListTransactionsResult;

    type Destinations = Vec<(RecipientAddress, u64)>;

    type Psbt = liana::miniscript::bitcoin::psbt::Psbt;

    type SpendCreated = liana::commands::CreateSpendResult;

    type LabelQuery = HashSet<liana::commands::LabelItem>;

    type Labels = HashMap<String, String>;

    type LabelsUpdate = HashMap<liana::commands::LabelItem, Option<String>>;

    fn start(config: &Self::Config) -> Result<Self, String> {
        LianaSession::start_raw(config)
    }

    fn probe_alive(&self) -> bool {
        self.probe_alive_raw()
    }

    fn shutdown(self) -> Result<(), String> {
        self.shutdown_raw()
    }

    fn get_info(&self) -> Self::Info {
        self.get_info_raw()
    }

    fn get_new_address(&self) -> Self::AddressReport {
        self.get_new_address_raw()
    }

    fn list_coins(
        &self,
        statuses: &[Self::CoinStatus],
        outpoints: &[Self::OutPoint],
    ) -> Self::Coins {
        self.list_coins_raw(statuses, outpoints)
    }

    fn list_spend_txs(&self) -> Result<Self::SpendList, String> {
        self.list_spend_txs_raw()
    }

    fn list_confirmed_txs(&self, start: u32, end: u32, limit: u64) -> Self::Transactions {
        self.list_confirmed_txs_raw(start, end, limit)
    }

    fn list_txs(&self, txids: &[Self::Txid]) -> Self::Transactions {
        self.list_txs_raw(txids)
    }

    fn create_spend_tx(
        &self,
        coins_outpoints: &[Self::OutPoint],
        destinations: &Self::Destinations,
        feerate_vb: u64,
        change_address: Option<Self::Address>,
    ) -> Result<Self::SpendCreated, String> {
        self.create_spend_tx_raw(coins_outpoints, destinations, feerate_vb, change_address)
    }

    fn rbf_psbt(
        &self,
        txid: &Self::Txid,
        is_cancel: bool,
        feerate_vb: Option<u64>,
    ) -> Result<Self::SpendCreated, String> {
        self.rbf_psbt_raw(txid, is_cancel, feerate_vb)
    }

    fn update_spend_tx(&self, psbt: &Self::Psbt) -> Result<(), String> {
        self.update_spend_tx_raw(psbt)
    }

    fn delete_spend_tx(&self, txid: &Self::Txid) {
        self.delete_spend_tx_raw(txid)
    }

    fn broadcast_spend_tx(&self, txid: &Self::Txid) -> Result<(), String> {
        self.broadcast_spend_tx_raw(txid)
    }

    fn start_rescan(&self, timestamp: u32) -> Result<(), String> {
        self.start_rescan_raw(timestamp)
    }

    fn create_recovery(
        &self,
        address: Self::Address,
        feerate_vb: u64,
        sequence: Option<u16>,
    ) -> Result<Self::Psbt, String> {
        self.create_recovery_raw(address, feerate_vb, sequence)
    }

    fn get_labels(&self, items: &Self::LabelQuery) -> Self::Labels {
        self.get_labels_raw(items)
    }

    fn update_labels(&self, items: &Self::LabelsUpdate) {
        self.update_labels_raw(items)
    }
}

} // verus!
