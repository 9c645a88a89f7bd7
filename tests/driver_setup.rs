use ic_fondue::cli::{AuthorizedSshAccount, ValidatedCliArgs};
use ic_fondue::context::create_driver_context_from_cli;
use ic_fondue::env_setup::{
    effective_farm_base_url, initialize_env, setup_ssh_key_dir, ConfigItem,
    AUTHORIZED_SSH_ACCOUNTS, BASE_IMG_SHA256, BASE_IMG_URL, DEFAULT_FARM_BASE_URL, FARM_BASE_URL, FARM_GROUP_NAME,
    INITIAL_REPLICA_VERSION, JOURNALBEAT_HOSTS, LOG_DEBUG_OVERRIDES,
};
use ic_fondue::job_id::{derive_job_id, job_id_from_stamp};
use ic_fondue::log_path::{log_file_location, TestPath};
use ic_fondue::logging::{
    delivery, root_pipeline, tee_plan, OverflowPolicy, Severity, TeePlan, ASYNC_CHAN_SIZE,
};
use rand_chacha::rand_core::RngCore;

fn path(segs: &[&str]) -> TestPath {
    TestPath::new(segs.iter().map(|s| s.to_string()).collect()).unwrap()
}

fn args(job_id: Option<&str>, seed: u64) -> ValidatedCliArgs {
    ValidatedCliArgs {
        job_id: job_id.map(|s| s.to_string()),
        rand_seed: seed,
        farm_base_url: None,
        farm_group_name: "group-1".to_string(),
        log_base_dir: Some("/logs".to_string()),
        pot_timeout_millis: 60_000,
        working_dir: "/work".to_string(),
        authorized_ssh_accounts: vec![
            AuthorizedSshAccount { name: "admin".to_string(), public_key: vec![1, 2, 3] },
            AuthorizedSshAccount { name: "root".to_string(), public_key: vec![4] },
        ],
        base_img_url: "https://img".to_string(),
        base_img_sha256: "abc".to_string(),
        journalbeat_hosts: vec![],
        initial_replica_version: "v1".to_string(),
        log_debug_overrides: vec![],
        nns_canister_path: None,
    }
}

#[test]
fn example_path_under_logs() {
    let loc = log_file_location("/logs", &path(&["pot1", "basic", "connectivity"]));
    assert_eq!(loc.file, "/logs/pot1/basic/connectivity.log");
    assert_eq!(loc.dir, "/logs/pot1/basic");
}

#[test]
fn single_segment_path_sits_in_base() {
    let loc = log_file_location("/logs", &path(&["solo"]));
    assert_eq!(loc.dir, "/logs");
    assert_eq!(loc.file, "/logs/solo.log");
}

#[test]
fn path_mapping_is_repeatable() {
    let p = path(&["a", "b"]);
    let l1 = log_file_location("base", &p);
    let l2 = log_file_location("base", &p);
    assert_eq!(l1.file, l2.file);
    assert_eq!(l1.dir, l2.dir);
    assert!(l1.file.starts_with(&format!("{}/", l1.dir)));
}

#[test]
fn empty_test_path_is_refused() {
    assert!(TestPath::new(vec![]).is_none());
    assert_eq!(path(&["x", "y"]).leaf(), "y");
}

#[test]
fn explicit_job_id_is_kept() {
    assert_eq!(
        derive_job_id(Some("job-7".to_string()), Some("host".to_string()), 947638923004),
        Some("job-7".to_string())
    );
    let ctx = create_driver_context_from_cli(args(Some("given"), 1), Some("h".to_string()), 0);
    assert_eq!(ctx.job_id, "given");
}

#[test]
fn derived_job_id_has_host_and_stamp() {
    assert_eq!(
        derive_job_id(None, Some("host".to_string()), 947638923004),
        Some("host-2000-01-12T01:02:03.004Z".to_string())
    );
    assert_eq!(derive_job_id(None, None, 0), Some("1970-01-01T00:00:00.000Z".to_string()));
    assert_eq!(
        derive_job_id(None, Some("host".to_string()), 947638923004),
        derive_job_id(None, Some("host".to_string()), 947638923004)
    );
}

#[test]
fn out_of_range_stamp_gives_none() {
    assert_eq!(derive_job_id(None, None, i64::MAX), None);
}

#[test]
fn job_id_from_stamp_joins_with_dash() {
    assert_eq!(job_id_from_stamp(None, Some("h".to_string()), "S"), "h-S");
    assert_eq!(job_id_from_stamp(None, None, "S"), "S");
    assert_eq!(job_id_from_stamp(Some("id".to_string()), Some("h".to_string()), "S"), "id");
}

#[test]
fn context_fields_follow_arguments() {
    let ctx = create_driver_context_from_cli(args(None, 5), Some("host".to_string()), 947638923004);
    assert_eq!(ctx.job_id, "host-2000-01-12T01:02:03.004Z");
    assert_eq!(ctx.farm_base_url, DEFAULT_FARM_BASE_URL);
    assert_eq!(ctx.logs_base_dir, Some("/logs".to_string()));
    assert_eq!(ctx.pot_timeout_millis, 60_000);
    assert_eq!(ctx.working_dir, "/work");
    assert_eq!(ctx.created_at_millis, 947638923004);
}

#[test]
fn same_seed_same_random_stream() {
    let mut a = create_driver_context_from_cli(args(Some("a"), 42), None, 0);
    let mut b = create_driver_context_from_cli(args(Some("b"), 42), None, 0);
    let mut c = create_driver_context_from_cli(args(Some("c"), 43), None, 0);
    let xs: Vec<u64> = (0..8).map(|_| a.rng.next_u64()).collect();
    let ys: Vec<u64> = (0..8).map(|_| b.rng.next_u64()).collect();
    let zs: Vec<u64> = (0..8).map(|_| c.rng.next_u64()).collect();
    assert_eq!(xs, ys);
    assert_ne!(xs, zs);
}

#[test]
fn farm_url_given_or_default() {
    assert_eq!(effective_farm_base_url(&None), "https://farm.dfinity.systems");
    assert_eq!(effective_farm_base_url(&Some("http://x".to_string())), "http://x");
}

#[test]
fn ssh_key_dir_has_one_file_per_account() {
    let a = args(None, 0);
    let w = setup_ssh_key_dir(&a.authorized_ssh_accounts);
    assert_eq!(w.len(), 2);
    assert_eq!(w[0].key, "ssh/authorized_accounts_dir/admin");
    assert_eq!(w[0].item, ConfigItem::AccountPublicKey(0));
    assert_eq!(w[1].key, "ssh/authorized_accounts_dir/root");
    assert_eq!(w[1].item, ConfigItem::AccountPublicKey(1));
    assert!(setup_ssh_key_dir(&vec![]).is_empty());
}

#[test]
fn initial_writes_in_order() {
    let w = initialize_env(&args(None, 0));
    let keys: Vec<&str> = w.iter().map(|x| x.key.as_str()).collect();
    assert_eq!(
        keys,
        vec![
            FARM_GROUP_NAME,
            FARM_BASE_URL,
            AUTHORIZED_SSH_ACCOUNTS,
            "ssh/authorized_accounts_dir/admin",
            "ssh/authorized_accounts_dir/root",
            BASE_IMG_URL,
            BASE_IMG_SHA256,
            JOURNALBEAT_HOSTS,
            INITIAL_REPLICA_VERSION,
            LOG_DEBUG_OVERRIDES,
        ]
    );
    assert_eq!(w[0].item, ConfigItem::FarmGroupName);
    assert_eq!(w[0].key, "farm/group_name");
    assert_eq!(w[1].item, ConfigItem::FarmBaseUrl);
    assert_eq!(w[4].item, ConfigItem::AccountPublicKey(1));
    assert_eq!(w[9].item, ConfigItem::LogDebugOverrides);
}

#[test]
fn tee_without_base_dir_is_root() {
    let plan = tee_plan(&None, &path(&["p", "t"]));
    assert!(matches!(plan, TeePlan::RootOnly));
    for s in [Severity::Critical, Severity::Warning, Severity::Info, Severity::Trace] {
        let d = delivery(&plan, s);
        assert!(d.console);
        assert!(!d.file);
    }
    let root = root_pipeline();
    assert_eq!(root.capacity, ASYNC_CHAN_SIZE);
    assert_eq!(root.policy, OverflowPolicy::DropNewest);
}

#[test]
fn tee_with_base_dir_splits_by_severity() {
    let plan = tee_plan(&Some("/logs".to_string()), &path(&["pot1", "basic", "connectivity"]));
    match &plan {
        TeePlan::Tee { console, file, location } => {
            assert_eq!(location.file, "/logs/pot1/basic/connectivity.log");
            assert_eq!(console.policy, OverflowPolicy::DropNewest);
            assert_eq!(file.policy, OverflowPolicy::Block);
            assert_eq!(file.capacity, 8192);
        }
        TeePlan::RootOnly => panic!("expected a tee"),
    }
    let info = delivery(&plan, Severity::Info);
    assert!(!info.console && info.file);
    let debug = delivery(&plan, Severity::Debug);
    assert!(!debug.console && debug.file);
    let warn = delivery(&plan, Severity::Warning);
    assert!(warn.console && warn.file);
    let err = delivery(&plan, Severity::Error);
    assert!(err.console && err.file);
}

#[test]
fn severity_order() {
    assert!(Severity::Error.is_at_least(Severity::Warning));
    assert!(Severity::Warning.is_at_least(Severity::Warning));
    assert!(!Severity::Info.is_at_least(Severity::Warning));
    assert_eq!(Severity::Critical.as_rank(), 1);
    assert_eq!(Severity::Trace.as_rank(), 6);
}
