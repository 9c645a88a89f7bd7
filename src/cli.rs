use vstd::prelude::*;

verus! {

/// An account that may log in to the test machines over SSH.
pub struct AuthorizedSshAccount {
    pub name: String,
    pub public_key: Vec<u8>,
}

/// The harness's command-line arguments, already checked.
pub struct ValidatedCliArgs {
    pub job_id: Option<String>,
    pub rand_seed: u64,
    pub farm_base_url: Option<String>,
    /// The name of the group of Farm resources that this run allocates.
    pub farm_group_name: String,
    pub log_base_dir: Option<String>,
    pub pot_timeout_millis: u64,
    pub working_dir: String,
    pub authorized_ssh_accounts: Vec<AuthorizedSshAccount>,
    pub base_img_url: String,
    pub base_img_sha256: String,
    pub journalbeat_hosts: Vec<String>,
    pub initial_replica_version: String,
    pub log_debug_overrides: Vec<String>,
    pub nns_canister_path: Option<String>,
}

} // verus!
