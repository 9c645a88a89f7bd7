use vstd::prelude::*;
use crate::cli::{AuthorizedSshAccount, ValidatedCliArgs};
use crate::job_id::opt_view;

verus! {

/// The Farm service used when none is given.
pub const DEFAULT_FARM_BASE_URL: &'static str = "https://farm.dfinity.systems";

pub const FARM_GROUP_NAME: &'static str = "farm/group_name";
pub const FARM_BASE_URL: &'static str = "farm/base_url";
pub const BASE_IMG_URL: &'static str = "base_img_url";
pub const BASE_IMG_SHA256: &'static str = "base_img_sha256";
pub const INITIAL_REPLICA_VERSION: &'static str = "initial_replica_version";
pub const JOURNALBEAT_HOSTS: &'static str = "journalbeat_hosts";
pub const LOG_DEBUG_OVERRIDES: &'static str = "log_debug_overrides";
pub const AUTHORIZED_SSH_ACCOUNTS: &'static str = "ssh/authorized_accounts";
pub const AUTHORIZED_SSH_ACCOUNTS_DIR: &'static str = "ssh/authorized_accounts_dir";
pub const POT_TIMEOUT: &'static str = "pot_timeout";

/// Which value of the arguments is stored under a key of the environment.
#[derive(Clone, Copy, Debug, PartialEq, Eq, Structural)]
pub enum ConfigItem {
    /// The name of the run's group of Farm resources.
    FarmGroupName,
    /// The Farm base URL in effect.
    FarmBaseUrl,
    /// The whole list of authorized SSH accounts.
    AuthorizedSshAccounts,
    /// The public key bytes of the account at this index.
    AccountPublicKey(usize),
    BaseImgUrl,
    BaseImgSha256,
    JournalbeatHosts,
    InitialReplicaVersion,
    LogDebugOverrides,
}

/// One write into the environment store: `item` is stored under `key`.
pub struct ConfigWrite {
    pub key: String,
    pub item: ConfigItem,
}

/// The views of a list of writes.
pub open spec fn writes_view(w: Seq<ConfigWrite>) -> Seq<(Seq<char>, ConfigItem)> {
    Seq::new(w.len(), |i: int| (w[i].key@, w[i].item))
}

/// The key under which an account's public key is stored.
pub open spec fn account_key_of(name: Seq<char>) -> Seq<char> {
    AUTHORIZED_SSH_ACCOUNTS_DIR@ + seq!['/'] + name
}

/// The writes that lay out the directory of public keys, one per account.
pub open spec fn key_dir_writes(accounts: Seq<AuthorizedSshAccount>) -> Seq<(Seq<char>, ConfigItem)> {
    Seq::new(
        accounts.len(),
        |i: int| (account_key_of(accounts[i].name@), ConfigItem::AccountPublicKey(i as usize)),
    )
}

/// The writes, in order, that initialise the environment of a run.
pub open spec fn init_writes(accounts: Seq<AuthorizedSshAccount>) -> Seq<(Seq<char>, ConfigItem)> {
    seq![
        (FARM_GROUP_NAME@, ConfigItem::FarmGroupName),
        (FARM_BASE_URL@, ConfigItem::FarmBaseUrl),
        (AUTHORIZED_SSH_ACCOUNTS@, ConfigItem::AuthorizedSshAccounts),
    ] + key_dir_writes(accounts) + seq![
        (BASE_IMG_URL@, ConfigItem::BaseImgUrl),
        (BASE_IMG_SHA256@, ConfigItem::BaseImgSha256),
        (JOURNALBEAT_HOSTS@, ConfigItem::JournalbeatHosts),
        (INITIAL_REPLICA_VERSION@, ConfigItem::InitialReplicaVersion),
        (LOG_DEBUG_OVERRIDES@, ConfigItem::LogDebugOverrides),
    ]
}

/// The Farm base URL in effect: the given one, else the default.
pub open spec fn farm_base_url_of(given: Option<Seq<char>>) -> Seq<char> {
    match given {
        Some(u) => u,
        None => DEFAULT_FARM_BASE_URL@,
    }
}

/// The Farm base URL in effect for a run.
pub fn effective_farm_base_url(given: &Option<String>) -> (r: String)
    ensures
        r@ == farm_base_url_of(opt_view(*given)),
{
    match given {
        Some(u) => u.clone(),
        None => String::from_str(DEFAULT_FARM_BASE_URL),
    }
}

fn push_write(writes: &mut Vec<ConfigWrite>, key: &str, item: ConfigItem)
    ensures
        writes_view(final(writes)@) == writes_view(old(writes)@).push((key@, item)),
{
    writes.push(ConfigWrite { key: String::from_str(key), item });
    proof {
        assert(writes_view(final(writes)@) =~= writes_view(old(writes)@).push((key@, item)));
    }
}

/// The files that make up the directory of public keys read by the
/// bootstrap script: for each account, its key bytes under
/// `ssh/authorized_accounts_dir/<name>`, in the order of the accounts.
pub fn setup_ssh_key_dir(key_pairs: &Vec<AuthorizedSshAccount>) -> (r: Vec<ConfigWrite>)
    ensures
        writes_view(r@) == key_dir_writes(key_pairs@),
{
    let mut writes: Vec<ConfigWrite> = Vec::new();
    let mut i: usize = 0;
    while i < key_pairs.len()
        invariant
            i <= key_pairs@.len(),
            writes_view(writes@) == key_dir_writes(key_pairs@.subrange(0, i as int)),
        decreases key_pairs@.len() - i,
    {
        proof {
            reveal_strlit("/");
        }
        let mut key = String::from_str(AUTHORIZED_SSH_ACCOUNTS_DIR);
        key.append("/");
        key.append(key_pairs[i].name.as_str());
        let ghost before = writes@;
        writes.push(ConfigWrite { key, item: ConfigItem::AccountPublicKey(i) });
        proof {
            assert(key@ == account_key_of(key_pairs@[i as int].name@));
            assert(writes_view(writes@) == writes_view(before).push(
                (account_key_of(key_pairs@[i as int].name@), ConfigItem::AccountPublicKey(i)),
            ));
            assert(writes_view(writes@) =~= key_dir_writes(key_pairs@.subrange(0, i + 1)));
        }
        i = i + 1;
    }
    proof {
        assert(key_pairs@.subrange(0, i as int) =~= key_pairs@);
    }
    writes
}

/// The writes, in order, that store the run's configuration into the
/// environment: the Farm group name, the Farm base URL, the authorized accounts, the key of each
/// account, the base image's URL and hash, the journalbeat hosts, the
/// initial replica version and the log overrides. A store applies them in
/// this order and stops at the first failure.
pub fn initialize_env(cli_args: &ValidatedCliArgs) -> (r: Vec<ConfigWrite>)
    ensures
        writes_view(r@) == init_writes(cli_args.authorized_ssh_accounts@),
{
    let mut writes: Vec<ConfigWrite> = Vec::new();
    push_write(&mut writes, FARM_GROUP_NAME, ConfigItem::FarmGroupName);
    push_write(&mut writes, FARM_BASE_URL, ConfigItem::FarmBaseUrl);
    push_write(&mut writes, AUTHORIZED_SSH_ACCOUNTS, ConfigItem::AuthorizedSshAccounts);
    let mut keys = setup_ssh_key_dir(&cli_args.authorized_ssh_accounts);
    let ghost head = writes@;
    let ghost key_writes = keys@;
    writes.append(&mut keys);
    proof {
        assert(writes_view(writes@) =~= writes_view(head) + writes_view(key_writes));
    }
    push_write(&mut writes, BASE_IMG_URL, ConfigItem::BaseImgUrl);
    push_write(&mut writes, BASE_IMG_SHA256, ConfigItem::BaseImgSha256);
    push_write(&mut writes, JOURNALBEAT_HOSTS, ConfigItem::JournalbeatHosts);
    push_write(&mut writes, INITIAL_REPLICA_VERSION, ConfigItem::InitialReplicaVersion);
    push_write(&mut writes, LOG_DEBUG_OVERRIDES, ConfigItem::LogDebugOverrides);
    proof {
        assert(writes_view(writes@) =~= init_writes(cli_args.authorized_ssh_accounts@));
    }
    writes
}

} // verus!
