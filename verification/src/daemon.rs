use vstd::prelude::*;

use crate::backend::DaemonBackend;
use crate::error::{map_collaborator, map_collaborator_spec, DaemonError};
use crate::lifecycle::{alive_next, stop_next, LifeState};
use crate::slot::HandleSlot;

verus! {

/// The wrapper around a single in-process daemon.
///
/// A value of this type is produced only by a successful [`Self::start`]
/// and then owns the one live session, stored in its slot, together with
/// the configuration it was started from. Its view is the abstract
/// [`LifeState`]: `Running` while the slot holds the session, `Stopped`
/// once the session has been taken out — terminally, by an explicit
/// [`Self::stop`] or by a dead liveness probe — and `Poisoned` once a
/// holder of the guard terminated abnormally.
pub struct EmbeddedDaemon<B: DaemonBackend> {
    config: B::Config,
    slot: HandleSlot<B>,
}

impl<B: DaemonBackend> View for EmbeddedDaemon<B> {
    type V = LifeState;

    closed spec fn view(&self) -> LifeState {
        if self.slot.is_poisoned() {
            LifeState::Poisoned
        } else if self.slot.stored() is Some {
            LifeState::Running
        } else {
            LifeState::Stopped
        }
    }
}

impl<B: DaemonBackend> EmbeddedDaemon<B> {
    /// The configuration the instance was started from.
    pub closed spec fn spec_config(self) -> B::Config {
        self.config
    }

    /// The session stored in the slot, if any.
    pub closed spec fn session(self) -> Option<B> {
        self.slot.stored()
    }

    /// The live session of a running instance.
    pub open spec fn live_session(self) -> B
        recommends
            self@ is Running,
    {
        self.session()->Some_0
    }

    /// Launches the daemon through the capability's start operation. On
    /// success the returned instance is running, holds exactly the session
    /// the capability produced for this configuration, and keeps the
    /// configuration. On failure the capability's detail is reported as
    /// `Start` and no instance — so no session — ever exists.
    pub fn start(config: B::Config) -> (r: Result<Self, DaemonError>)
        ensures
            r matches Ok(d) ==> d@ is Running && d.spec_config() == config && (exists|s: B|
                call_ensures(B::start, (&config,), Ok::<B, String>(s)) && d.session() == Some(s)),
            r matches Err(e) ==> exists|m: String|
                call_ensures(B::start, (&config,), Err::<B, String>(m)) && e == DaemonError::Start(
                    m,
                ),
    {
        match B::start(&config) {
            Ok(session) => Ok(EmbeddedDaemon { config, slot: HandleSlot::new(session) }),
            Err(detail) => Err(DaemonError::Start(detail)),
        }
    }

    /// This in-process variant is never the remote one.
    pub fn is_external(&self) -> (r: bool)
        ensures
            !r,
    {
        false
    }

    /// Read-only access to the stored configuration.
    pub fn config(&self) -> (r: Option<&B::Config>)
        ensures
            r matches Some(c) && *c == self.spec_config(),
    {
        Some(&self.config)
    }

    /// Records that a holder of the guard terminated abnormally while a
    /// call was in flight. From here on every call returns a recoverable
    /// `Unexpected` error: the termination is contained, never propagated.
    pub fn mark_poisoned(&mut self)
        ensures
            final(self)@ is Poisoned,
            final(self).spec_config() == old(self).spec_config(),
            final(self).session() == old(self).session(),
    {
        self.slot.mark_poisoned();
    }

    /// Stops the daemon. Idempotent: on a running instance the session is
    /// taken out and handed to the shutdown capability, whose outcome the
    /// result maps — an error is surfaced as `Unexpected` with its detail;
    /// on an already stopped instance nothing happens and success is
    /// returned. Either way the instance is stopped afterwards and never
    /// runs again. A poisoned guard refuses the access and leaves
    /// everything unchanged.
    pub fn stop(&mut self) -> (r: Result<(), DaemonError>)
        ensures
            final(self)@ == stop_next(old(self)@),
            final(self).spec_config() == old(self).spec_config(),
            old(self)@ is Poisoned ==> *final(self) == *old(self) && (r matches Err(e) && e
                is Unexpected),
            old(self)@ is Stopped ==> *final(self) == *old(self) && r == Ok::<(), DaemonError>(()),
            old(self)@ is Running ==> final(self)@ is Stopped && exists|out: Result<(), String>|
                call_ensures(B::shutdown, (old(self).live_session(),), out) && r
                    == map_collaborator_spec(out),
    {
        if let Err(e) = self.slot.acquire() {
            return Err(e);
        }
        match self.slot.take() {
            Some(session) => map_collaborator(session.shutdown()),
            None => Ok(()),
        }
    }

    /// Consults the liveness probe of a running daemon. A live probe
    /// changes nothing and returns success. A dead probe means the daemon
    /// is already gone: the one reclaiming shutdown is performed, on that
    /// session, and the instance is stopped whatever that shutdown returns
    /// — success then means "no error occurred", not "the daemon is
    /// alive", and a shutdown error is surfaced as `Unexpected` with its
    /// detail. On an already stopped instance the call behaves as any
    /// other stopped-instance command: it is refused as `DaemonStopped`,
    /// and neither the probe nor a shutdown is reached. A poisoned guard
    /// refuses the access and leaves everything unchanged.
    ///
    /// The branch taken is bound to the probe's answer: the instance stays
    /// running exactly on a live probe, and stops — through the shutdown
    /// whose outcome the result maps — exactly on a dead one.
    pub fn is_alive(&mut self) -> (r: Result<(), DaemonError>)
        ensures
            final(self)@ == alive_next(old(self)@, final(self)@ is Running),
            final(self).spec_config() == old(self).spec_config(),
            old(self)@ is Poisoned ==> *final(self) == *old(self) && (r matches Err(e) && e
                is Unexpected),
            old(self)@ is Stopped ==> *final(self) == *old(self) && r == Err::<(), DaemonError>(
                DaemonError::DaemonStopped,
            ),
            old(self)@ is Running ==> final(self)@ is Running || final(self)@ is Stopped,
            old(self)@ is Running && final(self)@ is Running ==> call_ensures(
                B::probe_alive,
                (&old(self).live_session(),),
                true,
            ),
            old(self)@ is Running && final(self)@ is Stopped ==> call_ensures(
                B::probe_alive,
                (&old(self).live_session(),),
                false,
            ),
            old(self)@ is Running && final(self)@ is Running ==> *final(self) == *old(self) && r
                == Ok::<(), DaemonError>(()),
            old(self)@ is Running && final(self)@ is Stopped ==> exists|out: Result<(), String>|
                call_ensures(B::shutdown, (old(self).live_session(),), out) && r
                    == map_collaborator_spec(out),
    {
        if let Err(e) = self.slot.acquire() {
            return Err(e);
        }
        let probe = match self.slot.peek() {
            Some(session) => session.probe_alive(),
            None => {
                return Err(DaemonError::DaemonStopped);
            },
        };
        if probe {
            return Ok(());
        }
        // The daemon is already dead: take the session and shut it down
        // purely to reclaim resources and surface any residual error. The
        // instance reaches the stopped state even if that shutdown errors.
        match self.slot.take() {
            Some(session) => map_collaborator(session.shutdown()),
            None => Ok(()),
        }
    }

    /// The forwarding primitive: runs the caller-supplied operation against
    /// the live session and returns its result verbatim. Against a stopped
    /// instance the operation is not reached and `DaemonStopped` is
    /// returned; a poisoned guard yields `Unexpected`. The lifecycle never
    /// changes.
    pub fn command<T, F: FnOnce(&B) -> Result<T, DaemonError>>(&self, method: F) -> (r: Result<
        T,
        DaemonError,
    >)
        requires
            self@ is Running ==> call_requires(method, (&self.live_session(),)),
        ensures
            self@ is Poisoned ==> (r matches Err(e) && e is Unexpected),
            self@ is Stopped ==> r == Err::<T, DaemonError>(DaemonError::DaemonStopped),
            self@ is Running ==> call_ensures(method, (&self.live_session(),), r),
    {
        if let Err(e) = self.slot.acquire() {
            return Err(e);
        }
        match self.slot.peek() {
            Some(session) => method(session),
            None => Err(DaemonError::DaemonStopped),
        }
    }

    /// Forwards the daemon state query: the report is an outcome of the
    /// collaborator's call on the live session.
    pub fn get_info(&self) -> (r: Result<B::Info, DaemonError>)
        ensures
            self@ is Poisoned ==> (r matches Err(e) && e is Unexpected),
            self@ is Stopped ==> r == Err::<B::Info, DaemonError>(DaemonError::DaemonStopped),
            self@ is Running ==> exists|v: B::Info|
                call_ensures(B::get_info, (&self.live_session(),), v) && r == Ok::<
                    B::Info,
                    DaemonError,
                >(v),
    {
        let op = |session: &B| -> (out: Result<B::Info, DaemonError>)
            ensures
                exists|v: B::Info|
                    call_ensures(B::get_info, (session,), v) && out == Ok::<B::Info, DaemonError>(
                        v,
                    ),
            {
                Ok(session.get_info())
            };
        self.command(op)
    }

    /// Forwards the receive address generation: the report is an outcome
    /// of the collaborator's call on the live session.
    pub fn get_new_address(&self) -> (r: Result<B::AddressReport, DaemonError>)
        ensures
            self@ is Poisoned ==> (r matches Err(e) && e is Unexpected),
            self@ is Stopped ==> r == Err::<B::AddressReport, DaemonError>(
                DaemonError::DaemonStopped,
            ),
            self@ is Running ==> exists|v: B::AddressReport|
                call_ensures(B::get_new_address, (&self.live_session(),), v) && r == Ok::<
                    B::AddressReport,
                    DaemonError,
                >(v),
    {
        let op = |session: &B| -> (out: Result<B::AddressReport, DaemonError>)
            ensures
                exists|v: B::AddressReport|
                    call_ensures(B::get_new_address, (session,), v) && out == Ok::<
                        B::AddressReport,
                        DaemonError,
                    >(v),
            {
                Ok(session.get_new_address())
            };
        self.command(op)
    }

    /// Forwards the coin listing: the listing is an outcome of the
    /// collaborator's call on the live session, with the filters handed on
    /// unchanged.
    pub fn list_coins(&self, statuses: &[B::CoinStatus], outpoints: &[B::OutPoint]) -> (r: Result<
        B::Coins,
        DaemonError,
    >)
        ensures
            self@ is Poisoned ==> (r matches Err(e) && e is Unexpected),
            self@ is Stopped ==> r == Err::<B::Coins, DaemonError>(DaemonError::DaemonStopped),
            self@ is Running ==> exists|v: B::Coins|
                call_ensures(B::list_coins, (&self.live_session(), statuses, outpoints), v) && r
                    == Ok::<B::Coins, DaemonError>(v),
    {
        let op = |session: &B| -> (out: Result<B::Coins, DaemonError>)
            ensures
                exists|v: B::Coins|
                    call_ensures(B::list_coins, (session, statuses, outpoints), v) && out == Ok::<
                        B::Coins,
                        DaemonError,
                    >(v),
            {
                Ok(session.list_coins(statuses, outpoints))
            };
        self.command(op)
    }

    /// Forwards the listing of stored spend transactions: the result maps
    /// an outcome of the collaborator's call on the live session.
    pub fn list_spend_txs(&self) -> (r: Result<B::SpendList, DaemonError>)
        ensures
            self@ is Poisoned ==> (r matches Err(e) && e is Unexpected),
            self@ is Stopped ==> r == Err::<B::SpendList, DaemonError>(DaemonError::DaemonStopped),
            self@ is Running ==> exists|res: Result<B::SpendList, String>|
                call_ensures(B::list_spend_txs, (&self.live_session(),), res) && r
                    == map_collaborator_spec(res),
    {
        let op = |session: &B| -> (out: Result<B::SpendList, DaemonError>)
            ensures
                exists|res: Result<B::SpendList, String>|
                    call_ensures(B::list_spend_txs, (session,), res) && out
                        == map_collaborator_spec(res),
            {
                map_collaborator(session.list_spend_txs())
            };
        self.command(op)
    }

    /// Forwards the listing of confirmed transactions: the listing is an
    /// outcome of the collaborator's call on the live session, with the
    /// window handed on unchanged.
    pub fn list_confirmed_txs(&self, start: u32, end: u32, limit: u64) -> (r: Result<
        B::Transactions,
        DaemonError,
    >)
        ensures
            self@ is Poisoned ==> (r matches Err(e) && e is Unexpected),
            self@ is Stopped ==> r == Err::<B::Transactions, DaemonError>(
                DaemonError::DaemonStopped,
            ),
            self@ is Running ==> exists|v: B::Transactions|
                call_ensures(B::list_confirmed_txs, (&self.live_session(), start, end, limit), v)
                    && r == Ok::<B::Transactions, DaemonError>(v),
    {
        let op = |session: &B| -> (out: Result<B::Transactions, DaemonError>)
            ensures
                exists|v: B::Transactions|
                    call_ensures(B::list_confirmed_txs, (session, start, end, limit), v) && out
                        == Ok::<B::Transactions, DaemonError>(v),
            {
                Ok(session.list_confirmed_txs(start, end, limit))
            };
        self.command(op)
    }

    /// Forwards the listing of the given transactions: the listing is an
    /// outcome of the collaborator's call on the live session, with the
    /// identifiers handed on unchanged.
    pub fn list_txs(&self, txids: &[B::Txid]) -> (r: Result<B::Transactions, DaemonError>)
        ensures
            self@ is Poisoned ==> (r matches Err(e) && e is Unexpected),
            self@ is Stopped ==> r == Err::<B::Transactions, DaemonError>(
                DaemonError::DaemonStopped,
            ),
            self@ is Running ==> exists|v: B::Transactions|
                call_ensures(B::list_txs, (&self.live_session(), txids), v) && r == Ok::<
                    B::Transactions,
                    DaemonError,
                >(v),
    {
        let op = |session: &B| -> (out: Result<B::Transactions, DaemonError>)
            ensures
                exists|v: B::Transactions|
                    call_ensures(B::list_txs, (session, txids), v) && out == Ok::<
                        B::Transactions,
                        DaemonError,
                    >(v),
            {
                Ok(session.list_txs(txids))
            };
        self.command(op)
    }

    /// Forwards the construction of a spend transaction: the result maps
    /// an outcome of the collaborator's call on the live session, with
    /// every argument handed on unchanged.
    pub fn create_spend_tx(
        &self,
        coins_outpoints: &[B::OutPoint],
        destinations: &B::Destinations,
        feerate_vb: u64,
        change_address: Option<B::Address>,
    ) -> (r: Result<B::SpendCreated, DaemonError>)
        ensures
            self@ is Poisoned ==> (r matches Err(e) && e is Unexpected),
            self@ is Stopped ==> r == Err::<B::SpendCreated, DaemonError>(
                DaemonError::DaemonStopped,
            ),
            self@ is Running ==> exists|res: Result<B::SpendCreated, String>|
                call_ensures(
                    B::create_spend_tx,
                    (&self.live_session(), coins_outpoints, destinations, feerate_vb,
                    change_address),
                    res,
                ) && r == map_collaborator_spec(res),
    {
        let op = |session: &B| -> (out: Result<B::SpendCreated, DaemonError>)
            ensures
                exists|res: Result<B::SpendCreated, String>|
                    call_ensures(
                        B::create_spend_tx,
                        (session, coins_outpoints, destinations, feerate_vb, change_address),
                        res,
                    ) && out == map_collaborator_spec(res),
            {
                map_collaborator(
                    session.create_spend_tx(
                        coins_outpoints,
                        destinations,
                        feerate_vb,
                        change_address,
                    ),
                )
            };
        self.command(op)
    }

    /// Forwards the fee-bump or cancel of the given transaction: the
    /// result maps an outcome of the collaborator's call on the live
    /// session, with the arguments handed on unchanged.
    pub fn rbf_psbt(&self, txid: &B::Txid, is_cancel: bool, feerate_vb: Option<u64>) -> (r: Result<
        B::SpendCreated,
        DaemonError,
    >)
        ensures
            self@ is Poisoned ==> (r matches Err(e) && e is Unexpected),
            self@ is Stopped ==> r == Err::<B::SpendCreated, DaemonError>(
                DaemonError::DaemonStopped,
            ),
            self@ is Running ==> exists|res: Result<B::SpendCreated, String>|
                call_ensures(
                    B::rbf_psbt,
                    (&self.live_session(), txid, is_cancel, feerate_vb),
                    res,
                ) && r == map_collaborator_spec(res),
    {
        let op = |session: &B| -> (out: Result<B::SpendCreated, DaemonError>)
            ensures
                exists|res: Result<B::SpendCreated, String>|
                    call_ensures(B::rbf_psbt, (session, txid, is_cancel, feerate_vb), res) && out
                        == map_collaborator_spec(res),
            {
                map_collaborator(session.rbf_psbt(txid, is_cancel, feerate_vb))
            };
        self.command(op)
    }

    /// Forwards the update of a stored spend transaction: the result maps
    /// an outcome of the collaborator's call on the live session, with the
    /// transaction handed on unchanged.
    pub fn update_spend_tx(&self, psbt: &B::Psbt) -> (r: Result<(), DaemonError>)
        ensures
            self@ is Poisoned ==> (r matches Err(e) && e is Unexpected),
            self@ is Stopped ==> r == Err::<(), DaemonError>(DaemonError::DaemonStopped),
            self@ is Running ==> exists|res: Result<(), String>|
                call_ensures(B::update_spend_tx, (&self.live_session(), psbt), res) && r
                    == map_collaborator_spec(res),
    {
        let op = |session: &B| -> (out: Result<(), DaemonError>)
            ensures
                exists|res: Result<(), String>|
                    call_ensures(B::update_spend_tx, (session, psbt), res) && out
                        == map_collaborator_spec(res),
            {
                map_collaborator(session.update_spend_tx(psbt))
            };
        self.command(op)
    }

    /// Forwards the deletion of a stored spend transaction: the
    /// collaborator's call is performed on the live session with the
    /// identifier handed on unchanged, and reports no error to surface.
    pub fn delete_spend_tx(&self, txid: &B::Txid) -> (r: Result<(), DaemonError>)
        ensures
            self@ is Poisoned ==> (r matches Err(e) && e is Unexpected),
            self@ is Stopped ==> r == Err::<(), DaemonError>(DaemonError::DaemonStopped),
            self@ is Running ==> call_ensures(B::delete_spend_tx, (&self.live_session(), txid), ())
                && r == Ok::<(), DaemonError>(()),
    {
        let op = |session: &B| -> (out: Result<(), DaemonError>)
            ensures
                call_ensures(B::delete_spend_tx, (session, txid), ()) && out == Ok::<
                    (),
                    DaemonError,
                >(()),
            {
                session.delete_spend_tx(txid);
                Ok(())
            };
        self.command(op)
    }

    /// Forwards the broadcast of a stored spend transaction: the result
    /// maps an outcome of the collaborator's call on the live session,
    /// with the identifier handed on unchanged.
    pub fn broadcast_spend_tx(&self, txid: &B::Txid) -> (r: Result<(), DaemonError>)
        ensures
            self@ is Poisoned ==> (r matches Err(e) && e is Unexpected),
            self@ is Stopped ==> r == Err::<(), DaemonError>(DaemonError::DaemonStopped),
            self@ is Running ==> exists|res: Result<(), String>|
                call_ensures(B::broadcast_spend_tx, (&self.live_session(), txid), res) && r
                    == map_collaborator_spec(res),
    {
        let op = |session: &B| -> (out: Result<(), DaemonError>)
            ensures
                exists|res: Result<(), String>|
                    call_ensures(B::broadcast_spend_tx, (session, txid), res) && out
                        == map_collaborator_spec(res),
            {
                map_collaborator(session.broadcast_spend_tx(txid))
            };
        self.command(op)
    }

    /// Forwards the start of a rescan: the result maps an outcome of the
    /// collaborator's call on the live session, with the timestamp handed
    /// on unchanged.
    pub fn start_rescan(&self, timestamp: u32) -> (r: Result<(), DaemonError>)
        ensures
            self@ is Poisoned ==> (r matches Err(e) && e is Unexpected),
            self@ is Stopped ==> r == Err::<(), DaemonError>(DaemonError::DaemonStopped),
            self@ is Running ==> exists|res: Result<(), String>|
                call_ensures(B::start_rescan, (&self.live_session(), timestamp), res) && r
                    == map_collaborator_spec(res),
    {
        let op = |session: &B| -> (out: Result<(), DaemonError>)
            ensures
                exists|res: Result<(), String>|
                    call_ensures(B::start_rescan, (session, timestamp), res) && out
                        == map_collaborator_spec(res),
            {
                map_collaborator(session.start_rescan(timestamp))
            };
        self.command(op)
    }

    /// Forwards the construction of a recovery transaction: the result
    /// maps an outcome of the collaborator's call on the live session,
    /// with the arguments handed on unchanged.
    pub fn create_recovery(
        &self,
        address: B::Address,
        feerate_vb: u64,
        sequence: Option<u16>,
    ) -> (r: Result<B::Psbt, DaemonError>)
        ensures
            self@ is Poisoned ==> (r matches Err(e) && e is Unexpected),
            self@ is Stopped ==> r == Err::<B::Psbt, DaemonError>(DaemonError::DaemonStopped),
            self@ is Running ==> exists|res: Result<B::Psbt, String>|
                call_ensures(
                    B::create_recovery,
                    (&self.live_session(), address, feerate_vb, sequence),
                    res,
                ) && r == map_collaborator_spec(res),
    {
        let op = |session: &B| -> (out: Result<B::Psbt, DaemonError>)
            ensures
                exists|res: Result<B::Psbt, String>|
                    call_ensures(B::create_recovery, (session, address, feerate_vb, sequence), res)
                        && out == map_collaborator_spec(res),
            {
                map_collaborator(session.create_recovery(address, feerate_vb, sequence))
            };
        self.command(op)
    }

    /// Forwards the label query: the listing is an outcome of the
    /// collaborator's call on the live session, with the query handed on
    /// unchanged.
    pub fn get_labels(&self, items: &B::LabelQuery) -> (r: Result<B::Labels, DaemonError>)
        ensures
            self@ is Poisoned ==> (r matches Err(e) && e is Unexpected),
            self@ is Stopped ==> r == Err::<B::Labels, DaemonError>(DaemonError::DaemonStopped),
            self@ is Running ==> exists|v: B::Labels|
                call_ensures(B::get_labels, (&self.live_session(), items), v) && r == Ok::<
                    B::Labels,
                    DaemonError,
                >(v),
    {
        let op = |session: &B| -> (out: Result<B::Labels, DaemonError>)
            ensures
                exists|v: B::Labels|
                    call_ensures(B::get_labels, (session, items), v) && out == Ok::<
                        B::Labels,
                        DaemonError,
                    >(v),
            {
                Ok(session.get_labels(items))
            };
        self.command(op)
    }

    /// Forwards the batch of label changes: the collaborator's call is
    /// performed on the live session with the batch handed on unchanged,
    /// and reports no error to surface.
    pub fn update_labels(&self, items: &B::LabelsUpdate) -> (r: Result<(), DaemonError>)
        ensures
            self@ is Poisoned ==> (r matches Err(e) && e is Unexpected),
            self@ is Stopped ==> r == Err::<(), DaemonError>(DaemonError::DaemonStopped),
            self@ is Running ==> call_ensures(B::update_labels, (&self.live_session(), items), ())
                && r == Ok::<(), DaemonError>(()),
    {
        let op = |session: &B| -> (out: Result<(), DaemonError>)
            ensures
                call_ensures(B::update_labels, (session, items), ()) && out == Ok::<
                    (),
                    DaemonError,
                >(()),
            {
                session.update_labels(items);
                Ok(())
            };
        self.command(op)
    }
}

} // verus!
