//! Behavioural tests of the lifecycle wrapper, driven through a counting
//! in-memory daemon-control capability.

use std::cell::RefCell;
use std::rc::Rc;

use embedded_daemon::backend::DaemonBackend;
use embedded_daemon::daemon::EmbeddedDaemon;
use embedded_daemon::error::DaemonError;

#[derive(Default)]
struct Counts {
    probes: usize,
    shutdowns: usize,
    get_info: usize,
    get_new_address: usize,
    list_coins: usize,
    list_spend: usize,
    list_confirmed: usize,
    list_txs: usize,
    create_spend: usize,
    rbf: usize,
    update_spend: usize,
    delete_spend: usize,
    broadcast: usize,
    rescan: usize,
    create_recovery: usize,
    get_labels: usize,
    update_labels: usize,
}

impl Counts {
    fn forwarded(&self) -> usize {
        self.get_info
            + self.get_new_address
            + self.list_coins
            + self.list_spend
            + self.list_confirmed
            + self.list_txs
            + self.create_spend
            + self.rbf
            + self.update_spend
            + self.delete_spend
            + self.broadcast
            + self.rescan
            + self.create_recovery
            + self.get_labels
            + self.update_labels
    }
}

#[derive(Clone)]
struct FakeConfig {
    start_error: Option<String>,
    alive: bool,
    shutdown_error: Option<String>,
    op_error: Option<String>,
    info_value: u64,
    counts: Rc<RefCell<Counts>>,
}

impl FakeConfig {
    fn healthy() -> FakeConfig {
        FakeConfig {
            start_error: None,
            alive: true,
            shutdown_error: None,
            op_error: None,
            info_value: 42,
            counts: Rc::new(RefCell::new(Counts::default())),
        }
    }
}

struct FakeSession {
    cfg: FakeConfig,
}

impl FakeSession {
    fn op_outcome(&self) -> Result<(), String> {
        match &self.cfg.op_error {
            Some(e) => Err(e.clone()),
            None => Ok(()),
        }
    }
}

impl DaemonBackend for FakeSession {
    type Config = FakeConfig;
    type Info = u64;
    type AddressReport = String;
    type Address = String;
    type CoinStatus = u8;
    type OutPoint = u32;
    type Coins = Vec<u32>;
    type SpendList = Vec<String>;
    type Txid = u64;
    type Transactions = Vec<u64>;
    type Destinations = Vec<(String, u64)>;
    type Psbt = String;
    type SpendCreated = String;
    type LabelQuery = Vec<String>;
    type Labels = Vec<(String, String)>;
    type LabelsUpdate = Vec<(String, Option<String>)>;

    fn start(config: &FakeConfig) -> Result<FakeSession, String> {
        match &config.start_error {
            Some(e) => Err(e.clone()),
            None => Ok(FakeSession { cfg: config.clone() }),
        }
    }

    fn probe_alive(&self) -> bool {
        self.cfg.counts.borrow_mut().probes += 1;
        self.cfg.alive
    }

    fn shutdown(self) -> Result<(), String> {
        self.cfg.counts.borrow_mut().shutdowns += 1;
        match self.cfg.shutdown_error {
            Some(e) => Err(e),
            None => Ok(()),
        }
    }

    fn get_info(&self) -> u64 {
        self.cfg.counts.borrow_mut().get_info += 1;
        self.cfg.info_value
    }

    fn get_new_address(&self) -> String {
        self.cfg.counts.borrow_mut().get_new_address += 1;
        "addr-1".to_string()
    }

    fn list_coins(&self, statuses: &[u8], outpoints: &[u32]) -> Vec<u32> {
        self.cfg.counts.borrow_mut().list_coins += 1;
        let mut v = outpoints.to_vec();
        v.extend(statuses.iter().map(|s| *s as u32));
        v
    }

    fn list_spend_txs(&self) -> Result<Vec<String>, String> {
        self.cfg.counts.borrow_mut().list_spend += 1;
        self.op_outcome().map(|_| vec!["spend-1".to_string()])
    }

    fn list_confirmed_txs(&self, start: u32, end: u32, limit: u64) -> Vec<u64> {
        self.cfg.counts.borrow_mut().list_confirmed += 1;
        vec![start as u64, end as u64, limit]
    }

    fn list_txs(&self, txids: &[u64]) -> Vec<u64> {
        self.cfg.counts.borrow_mut().list_txs += 1;
        txids.to_vec()
    }

    fn create_spend_tx(
        &self,
        coins_outpoints: &[u32],
        destinations: &Vec<(String, u64)>,
        feerate_vb: u64,
        change_address: Option<String>,
    ) -> Result<String, String> {
        self.cfg.counts.borrow_mut().create_spend += 1;
        self.op_outcome().map(|_| {
            format!(
                "spend:{}:{}:{}:{}",
                coins_outpoints.len(),
                destinations.len(),
                feerate_vb,
                change_address.unwrap_or_default()
            )
        })
    }

    fn rbf_psbt(
        &self,
        txid: &u64,
        is_cancel: bool,
        feerate_vb: Option<u64>,
    ) -> Result<String, String> {
        self.cfg.counts.borrow_mut().rbf += 1;
        self.op_outcome().map(|_| format!("rbf:{}:{}:{:?}", txid, is_cancel, feerate_vb))
    }

    fn update_spend_tx(&self, _psbt: &String) -> Result<(), String> {
        self.cfg.counts.borrow_mut().update_spend += 1;
        self.op_outcome()
    }

    fn delete_spend_tx(&self, _txid: &u64) {
        self.cfg.counts.borrow_mut().delete_spend += 1;
    }

    fn broadcast_spend_tx(&self, _txid: &u64) -> Result<(), String> {
        self.cfg.counts.borrow_mut().broadcast += 1;
        self.op_outcome()
    }

    fn start_rescan(&self, _timestamp: u32) -> Result<(), String> {
        self.cfg.counts.borrow_mut().rescan += 1;
        self.op_outcome()
    }

    fn create_recovery(
        &self,
        address: String,
        feerate_vb: u64,
        sequence: Option<u16>,
    ) -> Result<String, String> {
        self.cfg.counts.borrow_mut().create_recovery += 1;
        self.op_outcome().map(|_| format!("recovery:{}:{}:{:?}", address, feerate_vb, sequence))
    }

    fn get_labels(&self, items: &Vec<String>) -> Vec<(String, String)> {
        self.cfg.counts.borrow_mut().get_labels += 1;
        items.iter().map(|i| (i.clone(), format!("label-of-{}", i))).collect()
    }

    fn update_labels(&self, _items: &Vec<(String, Option<String>)>) {
        self.cfg.counts.borrow_mut().update_labels += 1;
    }
}

fn start_healthy() -> (EmbeddedDaemon<FakeSession>, Rc<RefCell<Counts>>) {
    let cfg = FakeConfig::healthy();
    let counts = cfg.counts.clone();
    let daemon = EmbeddedDaemon::<FakeSession>::start(cfg).expect("start must succeed");
    (daemon, counts)
}

#[test]
fn start_failure_reports_detail_and_stores_nothing() {
    let mut cfg = FakeConfig::healthy();
    cfg.start_error = Some("no datadir".to_string());
    let counts = cfg.counts.clone();
    let r = EmbeddedDaemon::<FakeSession>::start(cfg);
    match r {
        Err(DaemonError::Start(d)) => assert_eq!(d, "no datadir"),
        _ => panic!("start must fail with the Start detail"),
    }
    // Nothing was ever forwarded or shut down: no session was stored.
    assert_eq!(counts.borrow().forwarded(), 0);
    assert_eq!(counts.borrow().shutdowns, 0);
}

#[test]
fn info_then_stop_then_stopped() {
    let (mut d, counts) = start_healthy();
    assert_eq!(d.get_info(), Ok(42));
    assert_eq!(d.stop(), Ok(()));
    assert_eq!(counts.borrow().shutdowns, 1);
    assert_eq!(d.get_info(), Err(DaemonError::DaemonStopped));
    assert_eq!(counts.borrow().get_info, 1);
}

#[test]
fn stop_is_idempotent() {
    let (mut d, counts) = start_healthy();
    assert_eq!(d.stop(), Ok(()));
    assert_eq!(d.stop(), Ok(()));
    assert_eq!(counts.borrow().shutdowns, 1);
}

#[test]
fn stop_surfaces_shutdown_error_and_still_stops() {
    let mut cfg = FakeConfig::healthy();
    cfg.shutdown_error = Some("terminated badly".to_string());
    let counts = cfg.counts.clone();
    let mut d = EmbeddedDaemon::<FakeSession>::start(cfg).expect("start must succeed");
    assert_eq!(d.stop(), Err(DaemonError::Unexpected("terminated badly".to_string())));
    // The instance is stopped all the same; a second stop is a clean no-op.
    assert_eq!(d.stop(), Ok(()));
    assert_eq!(counts.borrow().shutdowns, 1);
    assert_eq!(d.get_info(), Err(DaemonError::DaemonStopped));
}

#[test]
fn commands_after_stop_are_refused_without_forwarding() {
    let (mut d, counts) = start_healthy();
    assert_eq!(d.stop(), Ok(()));
    assert_eq!(d.get_info(), Err(DaemonError::DaemonStopped));
    assert_eq!(d.get_new_address(), Err(DaemonError::DaemonStopped));
    assert_eq!(d.list_coins(&[1], &[2]), Err(DaemonError::DaemonStopped));
    assert_eq!(d.list_spend_txs(), Err(DaemonError::DaemonStopped));
    assert_eq!(d.list_confirmed_txs(0, 10, 5), Err(DaemonError::DaemonStopped));
    assert_eq!(d.list_txs(&[7]), Err(DaemonError::DaemonStopped));
    assert_eq!(
        d.create_spend_tx(&[1], &vec![("a".to_string(), 1000)], 2, None),
        Err(DaemonError::DaemonStopped)
    );
    assert_eq!(d.rbf_psbt(&7, false, Some(2)), Err(DaemonError::DaemonStopped));
    assert_eq!(d.update_spend_tx(&"psbt".to_string()), Err(DaemonError::DaemonStopped));
    assert_eq!(d.delete_spend_tx(&7), Err(DaemonError::DaemonStopped));
    assert_eq!(d.broadcast_spend_tx(&7), Err(DaemonError::DaemonStopped));
    assert_eq!(d.start_rescan(1234), Err(DaemonError::DaemonStopped));
    assert_eq!(
        d.create_recovery("a".to_string(), 2, None),
        Err(DaemonError::DaemonStopped)
    );
    assert_eq!(d.get_labels(&vec!["x".to_string()]), Err(DaemonError::DaemonStopped));
    assert_eq!(
        d.update_labels(&vec![("x".to_string(), None)]),
        Err(DaemonError::DaemonStopped)
    );
    // Not a single operation reached the capability.
    assert_eq!(counts.borrow().forwarded(), 0);
}

#[test]
fn dead_probe_triggers_exactly_one_shutdown() {
    let mut cfg = FakeConfig::healthy();
    cfg.alive = false;
    let counts = cfg.counts.clone();
    let mut d = EmbeddedDaemon::<FakeSession>::start(cfg).expect("start must succeed");
    // The probe reports death: one reclaiming shutdown, then stopped.
    assert_eq!(d.is_alive(), Ok(()));
    assert_eq!(counts.borrow().probes, 1);
    assert_eq!(counts.borrow().shutdowns, 1);
    // A second call behaves as a stopped-instance command: refused, with
    // neither the probe nor a shutdown reached again.
    assert_eq!(d.is_alive(), Err(DaemonError::DaemonStopped));
    assert_eq!(counts.borrow().probes, 1);
    assert_eq!(counts.borrow().shutdowns, 1);
    // Commands afterwards are refused as stopped.
    assert_eq!(d.get_new_address(), Err(DaemonError::DaemonStopped));
}

#[test]
fn dead_probe_shutdown_error_is_unexpected_and_stops() {
    let mut cfg = FakeConfig::healthy();
    cfg.alive = false;
    cfg.shutdown_error = Some("poller crashed".to_string());
    let mut d = EmbeddedDaemon::<FakeSession>::start(cfg).expect("start must succeed");
    assert_eq!(d.is_alive(), Err(DaemonError::Unexpected("poller crashed".to_string())));
    // The stopped state is reached even though the shutdown errored.
    assert_eq!(d.get_info(), Err(DaemonError::DaemonStopped));
    assert_eq!(d.is_alive(), Err(DaemonError::DaemonStopped));
}

#[test]
fn live_probe_keeps_running() {
    let (mut d, counts) = start_healthy();
    assert_eq!(d.is_alive(), Ok(()));
    assert_eq!(counts.borrow().probes, 1);
    assert_eq!(counts.borrow().shutdowns, 0);
    assert_eq!(d.get_info(), Ok(42));
}

#[test]
fn poisoned_guard_yields_unexpected_everywhere() {
    let (mut d, counts) = start_healthy();
    d.mark_poisoned();
    // Every access surfaces a recoverable error instead of a crash.
    assert!(matches!(d.get_info(), Err(DaemonError::Unexpected(_))));
    assert!(matches!(d.stop(), Err(DaemonError::Unexpected(_))));
    assert!(matches!(d.is_alive(), Err(DaemonError::Unexpected(_))));
    assert!(matches!(
        d.command(|_s: &FakeSession| Ok(0u8)),
        Err(DaemonError::Unexpected(_))
    ));
    // Nothing was forwarded and no shutdown was attempted.
    assert_eq!(counts.borrow().forwarded(), 0);
    assert_eq!(counts.borrow().shutdowns, 0);
}

#[test]
fn forwarded_calls_match_wrapper_calls() {
    let (d, counts) = start_healthy();
    let calls: usize = 6;
    assert_eq!(d.get_info(), Ok(42));
    assert_eq!(d.get_new_address(), Ok("addr-1".to_string()));
    assert_eq!(d.list_txs(&[3, 4]), Ok(vec![3, 4]));
    assert_eq!(d.list_confirmed_txs(1, 2, 3), Ok(vec![1, 2, 3]));
    assert_eq!(d.delete_spend_tx(&9), Ok(()));
    assert_eq!(d.update_labels(&vec![("k".to_string(), Some("v".to_string()))]), Ok(()));
    assert_eq!(counts.borrow().forwarded(), calls);
}

#[test]
fn command_returns_operation_result_verbatim() {
    let (d, _counts) = start_healthy();
    assert_eq!(d.command(|_s: &FakeSession| Ok(7u32)), Ok(7));
    assert_eq!(
        d.command(|_s: &FakeSession| -> Result<u32, DaemonError> {
            Err(DaemonError::Unexpected("custom".to_string()))
        }),
        Err(DaemonError::Unexpected("custom".to_string()))
    );
    let r = d.command(|s: &FakeSession| Ok(s.cfg.info_value + 1));
    assert_eq!(r, Ok(43));
}

#[test]
fn command_after_stop_skips_operation() {
    let (mut d, _counts) = start_healthy();
    assert_eq!(d.stop(), Ok(()));
    let invoked = Rc::new(RefCell::new(false));
    let seen = invoked.clone();
    let r = d.command(move |_s: &FakeSession| {
        *seen.borrow_mut() = true;
        Ok(1u8)
    });
    assert_eq!(r, Err(DaemonError::DaemonStopped));
    assert!(!*invoked.borrow());
}

#[test]
fn collaborator_failures_become_unexpected() {
    let mut cfg = FakeConfig::healthy();
    cfg.op_error = Some("not enough funds".to_string());
    let d = EmbeddedDaemon::<FakeSession>::start(cfg).expect("start must succeed");
    let expected = Err(DaemonError::Unexpected("not enough funds".to_string()));
    assert_eq!(d.list_spend_txs(), expected.clone().map(|()| vec![]));
    assert_eq!(
        d.create_spend_tx(&[1], &vec![("a".to_string(), 5)], 1, None),
        expected.clone().map(|()| String::new())
    );
    assert_eq!(d.rbf_psbt(&1, true, None), expected.clone().map(|()| String::new()));
    assert_eq!(d.update_spend_tx(&"p".to_string()), expected.clone());
    assert_eq!(d.broadcast_spend_tx(&1), expected.clone());
    assert_eq!(d.start_rescan(7), expected.clone());
    assert_eq!(
        d.create_recovery("a".to_string(), 1, Some(144)),
        expected.map(|()| String::new())
    );
}

#[test]
fn successful_operations_forward_values() {
    let (d, _counts) = start_healthy();
    assert_eq!(d.list_coins(&[2], &[10, 11]), Ok(vec![10, 11, 2]));
    assert_eq!(d.list_spend_txs(), Ok(vec!["spend-1".to_string()]));
    assert_eq!(
        d.create_spend_tx(&[1, 2], &vec![("dest".to_string(), 500)], 3, Some("chg".to_string())),
        Ok("spend:2:1:3:chg".to_string())
    );
    assert_eq!(d.rbf_psbt(&8, false, Some(4)), Ok("rbf:8:false:Some(4)".to_string()));
    assert_eq!(
        d.create_recovery("rec".to_string(), 2, Some(100)),
        Ok("recovery:rec:2:Some(100)".to_string())
    );
    assert_eq!(
        d.get_labels(&vec!["out".to_string()]),
        Ok(vec![("out".to_string(), "label-of-out".to_string())])
    );
    assert_eq!(d.update_spend_tx(&"psbt".to_string()), Ok(()));
    assert_eq!(d.broadcast_spend_tx(&5), Ok(()));
    assert_eq!(d.start_rescan(1000), Ok(()));
}

#[test]
fn accessors_report_variant_and_config() {
    let (d, _counts) = start_healthy();
    assert!(!d.is_external());
    let cfg = d.config().expect("the configuration is always stored");
    assert_eq!(cfg.info_value, 42);
    assert!(cfg.alive);
}

#[test]
fn stopped_instance_is_alive_behaves_as_command() {
    let (mut d, counts) = start_healthy();
    assert_eq!(d.stop(), Ok(()));
    // A stopped instance refuses the call like any other command, without
    // consulting the probe.
    assert_eq!(d.is_alive(), Err(DaemonError::DaemonStopped));
    assert_eq!(counts.borrow().probes, 0);
}
