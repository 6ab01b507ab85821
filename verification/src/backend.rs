use vstd::prelude::*;

verus! {

/// The daemon-control capability consumed by the wrapper.
///
/// An implementor stands for one live daemon session: it is produced by
/// `start`, probed by `probe_alive`, consumed exactly once by `shutdown`,
/// and answers the domain operations in between. The wrapper treats every
/// payload as an opaque value and every method as free to fail or to answer
/// arbitrarily: it delegates the domain semantics unchanged and promises
/// nothing about them. Fallible operations report their detail as text,
/// which the wrapper wraps as `Unexpected`.
pub trait DaemonBackend: Sized {
    /// How the session is started; kept by the wrapper for its lifetime.
    type Config;

    /// The daemon state report.
    type Info;

    /// A receive address report.
    type AddressReport;

    /// A destination address for spend construction.
    type Address;

    /// A coin status filter entry.
    type CoinStatus;

    /// A reference to a transaction output.
    type OutPoint;

    /// A coin listing.
    type Coins;

    /// A listing of stored spend transactions.
    type SpendList;

    /// A transaction identifier.
    type Txid;

    /// A transaction listing.
    type Transactions;

    /// The destinations of a spend: addresses with amounts.
    type Destinations;

    /// A partially signed transaction.
    type Psbt;

    /// The outcome of constructing a spend transaction.
    type SpendCreated;

    /// A query for labels.
    type LabelQuery;

    /// A label listing.
    type Labels;

    /// A batch of label changes.
    type LabelsUpdate;

    /// Launches the daemon, returning the live session or the failure
    /// detail.
    fn start(config: &Self::Config) -> Result<Self, String>;

    /// Reports whether the daemon behind this session is still up.
    fn probe_alive(&self) -> bool;

    /// Shuts the daemon down, consuming the session, and returns any error
    /// the daemon terminated with.
    fn shutdown(self) -> Result<(), String>;

    fn get_info(&self) -> Self::Info;

    fn get_new_address(&self) -> Self::AddressReport;

    fn list_coins(
        &self,
        statuses: &[Self::CoinStatus],
        outpoints: &[Self::OutPoint],
    ) -> Self::Coins;

    fn list_spend_txs(&self) -> Result<Self::SpendList, String>;

    fn list_confirmed_txs(&self, start: u32, end: u32, limit: u64) -> Self::Transactions;

    fn list_txs(&self, txids: &[Self::Txid]) -> Self::Transactions;

    fn create_spend_tx(
        &self,
        coins_outpoints: &[Self::OutPoint],
        destinations: &Self::Destinations,
        feerate_vb: u64,
        change_address: Option<Self::Address>,
    ) -> Result<Self::SpendCreated, String>;

    fn rbf_psbt(
        &self,
        txid: &Self::Txid,
        is_cancel: bool,
        feerate_vb: Option<u64>,
    ) -> Result<Self::SpendCreated, String>;

    fn update_spend_tx(&self, psbt: &Self::Psbt) -> Result<(), String>;

    fn delete_spend_tx(&self, txid: &Self::Txid);

    fn broadcast_spend_tx(&self, txid: &Self::Txid) -> Result<(), String>;

    fn start_rescan(&self, timestamp: u32) -> Result<(), String>;

    fn create_recovery(
        &self,
        address: Self::Address,
        feerate_vb: u64,
        sequence: Option<u16>,
    ) -> Result<Self::Psbt, String>;

    fn get_labels(&self, items: &Self::LabelQuery) -> Self::Labels;

    fn update_labels(&self, items: &Self::LabelsUpdate);
}

} // verus!
