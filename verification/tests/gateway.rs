use syron_minter::engine::pending_report;
use syron_minter::errors::UpdateBalanceError;
use syron_minter::guard::GuardTable;
use syron_minter::management::{
    admit_payment, classify_utxo_alerts, get_current_fees_cost_cycles, get_utxos_cost_cycles,
    withdrawal_attempt_id, KytCache, UtxoCheckStatus, UtxosPage, UtxosScan,
};
use syron_minter::orchestrator::TransferOutcome;
use syron_minter::outcall::{
    build_request_plan, extract_runes_amount_from_json, parse_runes_balance_response,
    runes_balance_endpoint, status_or_max, HttpMethodKind,
};
use syron_minter::provider::{
    get_default_providers, get_default_service_provider_hostnames, get_known_chain_id,
    HttpHeaderKV, ProviderRegistry, ServiceProvider, StorableServiceProvider,
};
use syron_minter::runes::{RunesScan, RunesUpdateSession};
use syron_minter::service::{is_response_too_large, HttpOutcallError};
use syron_minter::store::UtxoLedgerState;
use syron_minter::types::{Network, Outpoint, RejectCode, Utxo, UtxoStatus};

fn utxo(tag: u8, value: u64, height: u32) -> Utxo {
    Utxo { outpoint: Outpoint { txid: vec![tag; 32], vout: 0 }, value, height }
}

#[test]
fn registry_bootstrap_binds_the_default_chain() {
    let mut registry = ProviderRegistry::new();
    registry.init_service_provider(vec![1, 2, 3]);
    let resolved = registry
        .resolve_service_provider(ServiceProvider::Chain(0))
        .expect("default chain resolves");
    let api = resolved.api();
    assert_eq!(api.url, "https://main.tyron.io/api/");
    assert!(api.headers.is_none());
}

#[test]
fn registry_defaults_are_the_gateway_host() {
    let defaults = get_default_providers();
    assert_eq!(defaults.len(), 1);
    assert_eq!(defaults[0].chain_id, 0);
    assert_eq!(defaults[0].hostname, "main.tyron.io/");
    assert_eq!(defaults[0].credential_path, "api/");
    let hostnames = get_default_service_provider_hostnames();
    assert_eq!(hostnames.len(), 1);
    assert_eq!(hostnames[0].0, ServiceProvider::Chain(0));
    assert_eq!(hostnames[0].1, "main.tyron.io/");
    assert_eq!(get_known_chain_id(&ServiceProvider::Chain(9)), Some(9));
    assert_eq!(get_known_chain_id(&ServiceProvider::Provider(9)), None);
}

#[test]
fn registry_register_and_find() {
    let mut registry = ProviderRegistry::new();
    let defaults = get_default_providers();
    let args = defaults.into_iter().next().unwrap();
    let id = registry.register_provider(args, vec![5]);
    assert_eq!(id, 0);
    let hostname = String::from("main.tyron.io/");
    let found = registry.find_provider(0, &hostname).expect("registered provider");
    assert_eq!(found.provider_id, 0);
    assert_eq!(found.chain_id, 0);
    assert!(registry.find_provider(1, &hostname).is_none());
    match registry.resolve_service_provider(ServiceProvider::Provider(7)) {
        Err(e) => assert_eq!(e, syron_minter::service::ProviderError::ProviderNotFound),
        Ok(_) => panic!("provider 7 was never registered"),
    }
}

#[test]
fn stored_service_round_trips() {
    for service in [
        ServiceProvider::Chain(0),
        ServiceProvider::Chain(u64::MAX),
        ServiceProvider::Provider(12345),
    ] {
        let stored = StorableServiceProvider::new(&service);
        assert_eq!(ServiceProvider::try_from(stored).expect("round trip"), service);
    }
}

#[test]
fn runes_endpoint_reverses_the_txid() {
    let txid = vec![0xab, 0xcd];
    assert_eq!(
        runes_balance_endpoint(&txid, 7),
        "get-unisat-runes-balance?txid=cdab&index=7"
    );
    assert_eq!(
        runes_balance_endpoint(&vec![0x01, 0x0f, 0x10], 12),
        "get-unisat-runes-balance?txid=100f01&index=12"
    );
}

#[test]
fn runes_response_parsing() {
    assert_eq!(
        parse_runes_balance_response("{\"amount\":\"12345\"}").expect("valid reply"),
        12345
    );
    // A non-numeric amount counts as zero rather than failing.
    assert_eq!(
        parse_runes_balance_response("{\"amount\":\"xyz\"}").expect("non-numeric amount"),
        0
    );
    // An explicitly signed positive amount parses like an unsigned one.
    assert_eq!(
        parse_runes_balance_response("{\"amount\":\"+123\"}").expect("signed amount"),
        123
    );
    // A value beyond the representable range counts as zero, like any other
    // non-numeric amount.
    assert_eq!(
        parse_runes_balance_response("{\"amount\":\"18446744073709551616\"}")
            .expect("oversized amount"),
        0
    );
    match parse_runes_balance_response("  <!DOCTYPE html><html></html>") {
        Err(UpdateBalanceError::CallError { method, reason }) => {
            assert_eq!(method, "call_indexer_runes_balance");
            assert_eq!(reason, "Received HTML error page instead of JSON");
        }
        other => panic!("expected the HTML rejection, got {:?}", other),
    }
    match parse_runes_balance_response("{\"amount\":\"1,000\"}") {
        Err(UpdateBalanceError::CallError { method, reason }) => {
            assert_eq!(method, "extract_runes_amount_from_json");
            assert_eq!(
                reason,
                "Amount '1,000' contains commas or dots, indicating it's not in satoshis format"
            );
        }
        other => panic!("expected the format rejection, got {:?}", other),
    }
    match parse_runes_balance_response("not json at all") {
        Err(UpdateBalanceError::CallError { method, .. }) => {
            assert_eq!(method, "extract_runes_amount_from_json");
        }
        other => panic!("expected the parse rejection, got {:?}", other),
    }
    match extract_runes_amount_from_json(&b"{\"balance\":\"5\"}".to_vec()) {
        Err(UpdateBalanceError::CallError { reason, .. }) => {
            assert_eq!(reason, "Missing 'amount' field in JSON response");
        }
        other => panic!("expected the missing-field rejection, got {:?}", other),
    }
}

#[test]
fn request_plan_decides_method_headers_and_transform() {
    let mut registry = ProviderRegistry::new();
    registry.init_service_provider(vec![1]);
    let resolved = registry
        .resolve_service_provider(ServiceProvider::Chain(0))
        .expect("default chain resolves");
    let api = resolved.api();
    let get = build_request_plan(&api, 0, "get-unisat-runes-balance?txid=aa&index=0", "", 2048);
    assert_eq!(get.url, "https://main.tyron.io/api/get-unisat-runes-balance?txid=aa&index=0");
    assert_eq!(get.method, HttpMethodKind::GET);
    assert!(get.body.is_none());
    assert_eq!(get.max_response_bytes, 2048);
    assert_eq!(get.headers.len(), 1);
    assert_eq!(get.headers[0].name, "Content-Type");
    assert_eq!(get.headers[0].value, "application/json");
    assert_eq!(get.transform.as_deref(), Some("transform_request"));

    let post = build_request_plan(&api, 2, "x", "{\"a\":1}", 512);
    assert_eq!(post.method, HttpMethodKind::POST);
    assert_eq!(post.body.as_deref(), Some("{\"a\":1}".as_bytes()));
    assert_eq!(post.transform.as_deref(), Some("transform_unisat_request"));
    let unknown = build_request_plan(&api, 9, "x", "", 512);
    assert!(unknown.transform.is_none());

    let mut with_headers = api.clone();
    with_headers.headers = Some(vec![HttpHeaderKV {
        name: "Authorization".into(),
        value: "t".into(),
    }]);
    let authed = build_request_plan(&with_headers, 0, "x", "", 512);
    assert_eq!(authed.headers.len(), 2);
    assert_eq!(authed.headers[1].name, "Authorization");
}

#[test]
fn oracle_scan_accumulates_pages() {
    let mut scan = UtxosScan::new();
    let first = UtxosPage {
        utxos: vec![utxo(1, 10, 5)],
        tip_height: 90,
        next_page: Some(vec![9]),
    };
    assert_eq!(scan.on_page(first), Some(vec![9]));
    let second = UtxosPage {
        utxos: vec![utxo(2, 20, 6), utxo(3, 30, 7)],
        tip_height: 91,
        next_page: None,
    };
    assert_eq!(scan.on_page(second), None);
    let (utxos, tip) = scan.into_utxos();
    assert_eq!(tip, 91);
    assert_eq!(utxos.len(), 3);
    assert_eq!(utxos[0].value, 10);
    assert_eq!(utxos[2].value, 30);
}

#[test]
fn call_budgets_match_the_network() {
    assert_eq!(get_utxos_cost_cycles(Network::Mainnet), 10_000_000_000);
    assert_eq!(get_utxos_cost_cycles(Network::Testnet), 4_000_000_000);
    assert_eq!(get_current_fees_cost_cycles(Network::Mainnet), 100_000_000);
    assert_eq!(get_current_fees_cost_cycles(Network::Regtest), 0);
    assert!(admit_payment("get_exchange_rate", 10_000_000_000, 10_000_000_000).is_ok());
    let short = admit_payment("get_exchange_rate", 9_999_999_999, 10_000_000_000).unwrap_err();
    assert_eq!(short.method(), "get_exchange_rate");
    assert_eq!(
        short.to_text(),
        "management call 'get_exchange_rate' failed: the canister is out of cycles"
    );
}

#[test]
fn provenance_classification_and_cache() {
    let verdict = classify_utxo_alerts("ext-1".into(), true, vec![1]);
    assert_eq!(verdict.status, UtxoCheckStatus::Clean);
    let tainted = classify_utxo_alerts("ext-2".into(), false, vec![1]);
    assert_eq!(tainted.status, UtxoCheckStatus::Tainted);

    let mut cache = KytCache::new();
    let outpoint = Outpoint { txid: vec![8; 32], vout: 1 };
    assert!(cache.lookup(&outpoint).is_none());
    cache.record(
        Outpoint { txid: vec![8; 32], vout: 1 },
        classify_utxo_alerts("ext-3".into(), false, vec![2]),
    );
    let hit = cache.lookup(&outpoint).expect("cached verdict");
    assert_eq!(hit.status, UtxoCheckStatus::Tainted);
    assert_eq!(hit.external_id, "ext-3");
}

#[test]
fn withdrawal_id_joins_the_parts() {
    assert_eq!(
        withdrawal_attempt_id("aaaaa-aa", "tb1q", 12_345, 1_700_000_000),
        "aaaaa-aa:tb1q:12345:1700000000"
    );
}

#[test]
fn response_size_reject_detection() {
    assert!(is_response_too_large(
        &RejectCode::SysFatal,
        "Http body exceeds size limit of 2048 bytes."
    ));
    assert!(!is_response_too_large(&RejectCode::SysFatal, "other failure"));
    assert!(!is_response_too_large(&RejectCode::CanisterError, "size limit"));
    let err = HttpOutcallError::IcError {
        code: RejectCode::SysFatal,
        message: "response size limit reached".into(),
    };
    assert!(err.is_response_too_large());
    let other = HttpOutcallError::InvalidHttpJsonRpcResponse {
        status: 500,
        body: String::new(),
        parsing_error: None,
    };
    assert!(!other.is_response_too_large());
}

#[test]
fn raw_status_conversion() {
    assert_eq!(status_or_max(Some(404)), 404);
    assert_eq!(status_or_max(Some(0)), 0);
    assert_eq!(status_or_max(Some(u16::MAX)), u16::MAX);
    // A status too large for the representation falls back to the maximum.
    assert_eq!(status_or_max(None), u16::MAX);
}

#[test]
fn runes_scan_partitions_by_indexed_balance() {
    let scan_input = vec![utxo(1, 600, 10), utxo(2, 700, 11), utxo(3, 800, 12)];
    let mut scan = RunesScan::new(scan_input);
    assert_eq!(scan.next_query().expect("first").value, 600);
    scan.on_balance(0);
    assert_eq!(scan.next_query().expect("second").value, 700);
    scan.on_balance(5_000);
    scan.on_balance(0);
    assert!(scan.next_query().is_none());
    let (sats, runes) = scan.finish();
    assert_eq!(sats.len(), 2);
    assert_eq!(sats[0].value, 600);
    assert_eq!(sats[1].value, 800);
    assert_eq!(runes.len(), 1);
    // The runes entry is re-valued at the indexed amount.
    assert_eq!(runes[0].value, 5_000);
    assert_eq!(runes[0].outpoint.txid, vec![2; 32]);
}

#[test]
fn runes_update_counts_both_lists_and_claims_once() {
    let minter = vec![1, 2, 3];
    let mut store = UtxoLedgerState::new();
    let mut guard = GuardTable::new(4);
    let sats = vec![utxo(1, 600, 10)];
    let runes = vec![utxo(2, 5_000, 11)];
    let (mut session, have) = RunesUpdateSession::begin(
        &minter,
        "tb1qtreasury",
        6,
        &sats,
        &runes,
        &mut store,
        &mut guard,
    )
    .expect("guard free");
    assert!(have);
    let mut receipt: u64 = 1;
    while session.next_count() {
        let step = session.pending_transfer().clone();
        assert!(step.amount == 600 || step.amount == 5_000);
        let outcome = TransferOutcome::Accepted(Some(receipt));
        receipt += 1;
        session.on_transfer(&mut store, outcome).expect("counting settles");
    }
    let statuses = session.release(&mut guard);
    assert_eq!(statuses.len(), 2);
    assert!(matches!(statuses[0], UtxoStatus::Read(_)));
    assert!(matches!(statuses[1], UtxoStatus::Read(_)));
    assert!(store.is_recorded(&sats[0].outpoint));
    assert!(store.is_recorded(&runes[0].outpoint));

    // A second update over the same scans finds nothing new.
    let (mut again, have_again) = RunesUpdateSession::begin(
        &minter,
        "tb1qtreasury",
        6,
        &sats,
        &runes,
        &mut store,
        &mut guard,
    )
    .expect("guard free again");
    assert!(!have_again);
    match again.on_pending_utxos(800_000, &vec![]) {
        UpdateBalanceError::NoNewUtxos { required_confirmations, .. } => {
            assert_eq!(required_confirmations, 6);
        }
        other => panic!("expected no new UTXOs, got {:?}", other),
    }
    again.release(&mut guard);
}

#[test]
fn runes_update_abort_reports_checked() {
    let minter = vec![1, 2, 3];
    let mut store = UtxoLedgerState::new();
    let mut guard = GuardTable::new(4);
    let sats = vec![utxo(4, 600, 10)];
    let (mut session, have) =
        RunesUpdateSession::begin(&minter, "tb1qtreasury", 6, &sats, &vec![], &mut store, &mut guard)
            .expect("guard free");
    assert!(have);
    assert!(session.next_count());
    let failure = TransferOutcome::Rejected { code: 2, message: "busy".into() };
    match session.on_transfer(&mut store, failure) {
        Err(UpdateBalanceError::TemporarilyUnavailable(m)) => {
            assert_eq!(
                m,
                "@count_runes_minter: Cannot add runes balance: busy (reject_code = 2)"
            );
        }
        other => panic!("expected the transient failure, got {:?}", other),
    }
    // Nothing was claimed, so a retry can still count the UTXO.
    assert!(!store.is_recorded(&sats[0].outpoint));
    let statuses = session.release(&mut guard);
    assert_eq!(statuses, vec![UtxoStatus::Checked(sats[0].clone())]);
}

#[test]
fn pending_report_is_exact_for_the_threshold_edge() {
    // With a threshold of 2, a UTXO at the tip (1 confirmation) is pending
    // and one a block older (2 confirmations) is not.
    let utxos = vec![utxo(1, 10, 100), utxo(2, 20, 99)];
    match pending_report(100, &utxos, 2) {
        UpdateBalanceError::NoNewUtxos { current_confirmations, pending_utxos, .. } => {
            let pending = pending_utxos.unwrap();
            assert_eq!(pending.len(), 1);
            assert_eq!(pending[0].value, 10);
            assert_eq!(pending[0].confirmations, 1);
            assert_eq!(current_confirmations, Some(1));
        }
        other => panic!("expected the pending report, got {:?}", other),
    }
}
