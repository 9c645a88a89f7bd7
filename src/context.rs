use vstd::prelude::*;
use rand_chacha::ChaCha8Rng;
use crate::cli::ValidatedCliArgs;
use crate::env_setup::{effective_farm_base_url, farm_base_url_of};
use crate::job_id::{derive_job_id, job_id_of, opt_view, rfc3339_millis_utc, timestamp_in_range};

verus! {

#[verifier::external_type_specification]
#[verifier::external_body]
pub struct ExChaCha8Rng(ChaCha8Rng);

/// The state of a ChaCha8 generator seeded from a 64-bit seed.
pub uninterp spec fn chacha8_seeded(seed: u64) -> ChaCha8Rng;

/// Relies on rand_core's `SeedableRng::seed_from_u64` for rand_chacha's
/// `ChaCha8Rng`: the generator's state is a function of the seed alone.
#[verifier::external_body]
fn seed_chacha8(seed: u64) -> (r: ChaCha8Rng)
    ensures
        r == chacha8_seeded(seed),
{
    <ChaCha8Rng as rand_chacha::rand_core::SeedableRng>::seed_from_u64(seed)
}

/// What every test of one run shares.
pub struct DriverContext {
    /// Reproducible randomness, seeded from the run's seed.
    pub rng: ChaCha8Rng,
    /// When the context was created, in milliseconds since the Unix epoch.
    pub created_at_millis: i64,
    /// A unique id identifying this test run.
    pub job_id: String,
    /// The base URL of the Farm service.
    pub farm_base_url: String,
    /// Where each test's log file goes, if anywhere.
    pub logs_base_dir: Option<String>,
    /// How long a pot may run, in milliseconds.
    pub pot_timeout_millis: u64,
    pub working_dir: String,
}

/// Builds the context of a run created at `created_at_millis`: the job id
/// is the given one, else `<hostname>-<creation time in RFC 3339>`; the
/// generator is seeded from the given seed; the Farm URL is the given one,
/// else the default.
pub fn create_driver_context_from_cli(
    cli_args: ValidatedCliArgs,
    hostname: Option<String>,
    created_at_millis: i64,
) -> (r: DriverContext)
    requires
        cli_args.job_id is Some || timestamp_in_range(created_at_millis),
    ensures
        r.job_id@ == job_id_of(
            opt_view(cli_args.job_id),
            opt_view(hostname),
            rfc3339_millis_utc(created_at_millis),
        ),
        r.rng == chacha8_seeded(cli_args.rand_seed),
        r.created_at_millis == created_at_millis,
        r.farm_base_url@ == farm_base_url_of(opt_view(cli_args.farm_base_url)),
        opt_view(r.logs_base_dir) == opt_view(cli_args.log_base_dir),
        r.pot_timeout_millis == cli_args.pot_timeout_millis,
        r.working_dir@ == cli_args.working_dir@,
{
    let farm_base_url = effective_farm_base_url(&cli_args.farm_base_url);
    let job_id = match derive_job_id(cli_args.job_id, hostname, created_at_millis) {
        Some(id) => id,
        None => {
            // the requires rules this out: no explicit id and a timestamp out of range
            proof {
                assert(false);
            }
            String::new()
        },
    };
    DriverContext {
        rng: seed_chacha8(cli_args.rand_seed),
        created_at_millis,
        job_id,
        farm_base_url,
        logs_base_dir: cli_args.log_base_dir,
        pot_timeout_millis: cli_args.pot_timeout_millis,
        working_dir: cli_args.working_dir,
    }
}

/// Two runs with the same seed start from the same generator state, and so
/// draw the same pseudo-random sequence.
pub proof fn lemma_same_seed_same_generator(seed1: u64, seed2: u64)
    requires
        seed1 == seed2,
    ensures
        chacha8_seeded(seed1) == chacha8_seeded(seed2),
{
}

} // verus!
