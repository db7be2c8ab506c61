//! The rules of the two trusted-setup ceremonies: who may act when, where
//! each participant's file lies, and how one contribution is held against
//! the one before it.
//!
//! Nothing here touches a file or a curve. The caller reads and writes,
//! and asks these functions what to read, whether to go on, and what to
//! record.
use vstd::prelude::*;
use vstd::string::*;
use rand::rngs::OsRng;
use rand::Rng;
use crate::digest::digest_matches;
use crate::digest::sha256;
use crate::digest::sha256_digest;
use crate::text::append_decimal;
use crate::text::append_hex;
use crate::text::decimal_text;
use crate::text::hex_text;

verus! {

/// Why a ceremony step is refused.
#[derive(Clone, Copy, Debug, PartialEq, Eq)]
pub enum CeremonyError {
    /// The step belongs to another participant.
    PermissionDenied,
    /// The session is not at this participant's round.
    WrongRound,
    /// The ceremony was initialized before.
    AlreadyExists,
    /// A contribution does not continue the file it claims to continue.
    InvalidData,
    /// The recorded digest of the parameters is missing.
    NotFound,
}

/// `Rng::gen` of `rand`, on `OsRng`: 64 bits from the operating system.
/// Nothing is promised of them.
#[verifier::external_body]
fn random_u64() -> (r: u64) {
    OsRng.gen()
}

/// The configuration of a multi-party setup.
#[derive(Clone, Debug, PartialEq, Eq)]
pub struct MpcConfig {
    /// The size parameter of the commitment scheme.
    pub k: u32,
    /// How many participants contribute.
    pub total_participants: u32,
    /// How many participants are needed to finalize.
    pub threshold: u32,
    /// The name of the session.
    pub session_id: String,
    /// The directory that holds the session's files.
    pub base_dir: String,
}

impl MpcConfig {
    /// The configuration is the one for the given parameters and the
    /// session numbered `id`: the session is named by the hexadecimal
    /// spelling of `id`, and its directory is `mpc-setup-` and that name.
    pub open spec fn for_session(self, k: u32, total: u32, threshold: u32, id: u64) -> bool {
        &&& self.k == k
        &&& self.total_participants == total
        &&& self.threshold == threshold
        &&& self.session_id@ == hex_text(id as nat)
        &&& self.base_dir@ == "mpc-setup-"@ + hex_text(id as nat)
    }

    /// The configuration of the session numbered `id`.
    pub fn with_session_id(k: u32, total_participants: u32, threshold: u32, id: u64) -> (r: Self)
        ensures
            r.for_session(k, total_participants, threshold, id),
    {
        let mut session_id = String::from_str("");
        proof {
            reveal_strlit("");
            assert(session_id@ =~= Seq::<char>::empty());
        }
        append_hex(&mut session_id, id);
        assert(session_id@ =~= hex_text(id as nat));
        let mut base_dir = String::from_str("mpc-setup-");
        append_hex(&mut base_dir, id);
        MpcConfig { k, total_participants, threshold, session_id, base_dir }
    }

    /// The configuration of a new session, numbered at random.
    pub fn new(k: u32, total_participants: u32, threshold: u32) -> (r: Self)
        ensures
            exists|id: u64| r.for_session(k, total_participants, threshold, id),
    {
        let id = random_u64();
        let config = MpcConfig::with_session_id(k, total_participants, threshold, id);
        assert(config.for_session(k, total_participants, threshold, id));
        config
    }

    /// Where the contribution of the given participant lies.
    pub fn participant_path(&self, participant_id: u32) -> (r: String)
        ensures
            r@ == self.base_dir@ + "/participant-"@ + decimal_text(participant_id as nat)
                + ".bin"@,
    {
        let mut path = self.base_dir.clone();
        path.append("/participant-");
        append_decimal(&mut path, participant_id as u64);
        path.append(".bin");
        path
    }

    /// Where the final parameters lie.
    pub fn srs_path(&self) -> (r: String)
        ensures
            r@ == self.base_dir@ + "/kzg.srs"@,
    {
        let mut path = self.base_dir.clone();
        path.append("/kzg.srs");
        path
    }

    /// Where the digest of the final parameters lies.
    pub fn srs_hash_path(&self) -> (r: String)
        ensures
            r@ == self.base_dir@ + "/kzg.srs.sha256"@,
    {
        let mut path = self.base_dir.clone();
        path.append("/kzg.srs.sha256");
        path
    }
}

/// What a participant starts its round from.
#[derive(Clone, Debug, PartialEq, Eq)]
pub enum RoundPlan {
    /// Fresh parameters: the first participant has no predecessor.
    FreshParameters,
    /// The contribution of the participant before, at the given path.
    ContinueFrom(String),
}

/// The round that a participant finds the session in: the first round for
/// the first participant, its own round if its predecessor has
/// contributed, and its predecessor's round if not.
pub open spec fn round_on_entry(participant_id: u32, previous_exists: bool) -> int {
    if participant_id == 1 {
        1
    } else if previous_exists {
        participant_id as int
    } else {
        participant_id - 1
    }
}

/// One participant's view of a multi-party setup.
#[derive(Debug)]
pub struct MpcSession {
    config: MpcConfig,
    participant_id: u32,
    current_round: u32,
    total_rounds: u32,
}

impl MpcSession {
    /// The session's configuration.
    pub closed spec fn spec_config(&self) -> MpcConfig {
        self.config
    }

    /// The number of the participant, counted from 1.
    pub closed spec fn spec_participant_id(&self) -> u32 {
        self.participant_id
    }

    /// The round that the session is in, counted from 1.
    pub closed spec fn spec_current_round(&self) -> u32 {
        self.current_round
    }

    /// The number of rounds: one for every participant.
    pub closed spec fn spec_total_rounds(&self) -> u32 {
        self.total_rounds
    }

    #[verifier::type_invariant]
    spec fn rounds_count_from_one(&self) -> bool {
        self.current_round >= 1
    }

    /// Joins the session as the given participant. `previous_exists` says
    /// whether the contribution of the participant before is on file.
    pub fn new(config: MpcConfig, participant_id: u32, previous_exists: bool) -> (r: Self)
        requires
            participant_id >= 1,
        ensures
            r.spec_config() == config,
            r.spec_participant_id() == participant_id,
            r.spec_total_rounds() == config.total_participants,
            r.spec_current_round() == round_on_entry(participant_id, previous_exists),
    {
        let current_round = if participant_id == 1 {
            1
        } else if previous_exists {
            participant_id
        } else {
            participant_id - 1
        };
        let total_rounds = config.total_participants;
        MpcSession { config, participant_id, current_round, total_rounds }
    }

    /// The session's configuration.
    pub fn config(&self) -> (r: &MpcConfig)
        ensures
            *r == self.spec_config(),
    {
        &self.config
    }

    /// The round that the session is in.
    pub fn current_round(&self) -> (r: u32)
        ensures
            r == self.spec_current_round(),
            r >= 1,
    {
        proof {
            use_type_invariant(self);
        }
        self.current_round
    }

    /// Whether this is the first participant.
    pub fn is_first_participant(&self) -> (r: bool)
        ensures
            r == (self.spec_participant_id() == 1),
    {
        self.participant_id == 1
    }

    /// Whether this is the last participant.
    pub fn is_last_participant(&self) -> (r: bool)
        ensures
            r == (self.spec_participant_id() == self.spec_config().total_participants),
    {
        self.participant_id == self.config.total_participants
    }

    /// The rounds completed, and the rounds in all.
    pub fn get_progress(&self) -> (r: (u32, u32))
        ensures
            r.0 == self.spec_current_round() - 1,
            r.1 == self.spec_total_rounds(),
    {
        proof {
            use_type_invariant(self);
        }
        (self.current_round - 1, self.total_rounds)
    }

    /// Whether this participant may initialize the setup: only the first
    /// may.
    pub fn initialize(&self) -> (r: Result<(), CeremonyError>)
        ensures
            self.spec_participant_id() == 1 ==> r is Ok,
            self.spec_participant_id() != 1 ==> r == Err::<(), CeremonyError>(
                CeremonyError::PermissionDenied,
            ),
    {
        if self.participant_id != 1 {
            Err(CeremonyError::PermissionDenied)
        } else {
            Ok(())
        }
    }

    /// What this participant's round starts from. The round can only be
    /// executed when the session has reached it.
    pub fn execute_round(&self) -> (r: Result<RoundPlan, CeremonyError>)
        ensures
            self.spec_current_round() != self.spec_participant_id() ==> r == Err::<
                RoundPlan,
                CeremonyError,
            >(CeremonyError::WrongRound),
            self.spec_current_round() == self.spec_participant_id() ==> r is Ok && match r.unwrap(
            ) {
                RoundPlan::FreshParameters => self.spec_participant_id() == 1,
                RoundPlan::ContinueFrom(path) => self.spec_participant_id() > 1 && path@
                    == self.spec_config().base_dir@ + "/participant-"@ + decimal_text(
                    (self.spec_participant_id() - 1) as nat,
                ) + ".bin"@,
            },
    {
        proof {
            use_type_invariant(self);
        }
        if self.current_round != self.participant_id {
            return Err(CeremonyError::WrongRound);
        }
        if self.participant_id > 1 {
            Ok(RoundPlan::ContinueFrom(self.config.participant_path(self.participant_id - 1)))
        } else {
            Ok(RoundPlan::FreshParameters)
        }
    }

    /// Records that this participant's contribution is on file: the
    /// session moves to the next round.
    pub fn complete_round(&mut self)
        requires
            old(self).spec_current_round() < u32::MAX,
        ensures
            final(self).spec_current_round() == old(self).spec_current_round() + 1,
            final(self).spec_participant_id() == old(self).spec_participant_id(),
            final(self).spec_total_rounds() == old(self).spec_total_rounds(),
            final(self).spec_config() == old(self).spec_config(),
    {
        self.current_round = self.current_round + 1;
    }

    /// Whether this participant may finalize the setup: only the last may.
    /// The contribution to finalize is the one of the participant before.
    pub fn finalize(&self) -> (r: Result<(), CeremonyError>)
        ensures
            self.spec_participant_id() == self.spec_config().total_participants ==> r is Ok,
            self.spec_participant_id() != self.spec_config().total_participants ==> r == Err::<
                (),
                CeremonyError,
            >(CeremonyError::PermissionDenied),
    {
        if self.participant_id != self.config.total_participants {
            Err(CeremonyError::PermissionDenied)
        } else {
            Ok(())
        }
    }
}

/// The file names of a sequential ceremony for a given size parameter.
#[derive(Clone, Debug, PartialEq, Eq)]
pub struct PowersOfTauConfig {
    /// The size parameter of the commitment scheme.
    pub k: u32,
    /// Where the initial parameters lie.
    pub initial_ptau_path: String,
    /// Where the latest contribution lies.
    pub contribution_path: String,
    /// Where the final parameters lie.
    pub srs_path: String,
    /// Where the digest of the final parameters lies.
    pub srs_hash_path: String,
}

impl PowersOfTauConfig {
    /// The file names for the size parameter `k`.
    pub fn new(k: u32) -> (r: Self)
        ensures
            r.k == k,
            r.initial_ptau_path@ == "params/powersoftau_initial_"@ + decimal_text(k as nat)
                + ".ptau"@,
            r.contribution_path@ == "params/powersoftau_contribution_"@ + decimal_text(k as nat)
                + ".ptau"@,
            r.srs_path@ == "params/kzg.srs"@,
            r.srs_hash_path@ == "params/kzg.srs.sha256"@,
    {
        let mut initial_ptau_path = String::from_str("params/powersoftau_initial_");
        append_decimal(&mut initial_ptau_path, k as u64);
        initial_ptau_path.append(".ptau");
        let mut contribution_path = String::from_str("params/powersoftau_contribution_");
        append_decimal(&mut contribution_path, k as u64);
        contribution_path.append(".ptau");
        PowersOfTauConfig {
            k,
            initial_ptau_path,
            contribution_path,
            srs_path: String::from_str("params/kzg.srs"),
            srs_hash_path: String::from_str("params/kzg.srs.sha256"),
        }
    }
}

/// One contribution to a sequential ceremony.
#[derive(Clone, Debug, PartialEq, Eq)]
pub struct PowersOfTauContribution {
    /// The seed that the contributor named.
    pub randomness: Vec<u8>,
    /// The parameters after the contribution.
    pub params: Vec<u8>,
    /// When the contribution was made, in seconds.
    pub timestamp: u64,
    /// The digest of the file that the contribution continues, if it
    /// continues one.
    pub prev_hash: Option<Vec<u8>>,
}

/// One participant's view of a sequential ceremony.
#[derive(Clone, Debug, PartialEq, Eq)]
pub struct PowersOfTauSession {
    pub config: PowersOfTauConfig,
    /// Whether this is the first participant.
    pub is_first: bool,
}

impl PowersOfTauSession {
    /// Joins the ceremony for the size parameter `k`. Whoever finds no
    /// initial parameters on file is the first participant.
    pub fn new(k: u32, initial_exists: bool) -> (r: Self)
        ensures
            r.is_first == !initial_exists,
            r.config.k == k,
            r.config.initial_ptau_path@ == "params/powersoftau_initial_"@ + decimal_text(k as nat)
                + ".ptau"@,
            r.config.contribution_path@ == "params/powersoftau_contribution_"@ + decimal_text(
                k as nat,
            ) + ".ptau"@,
            r.config.srs_path@ == "params/kzg.srs"@,
            r.config.srs_hash_path@ == "params/kzg.srs.sha256"@,
    {
        let config = PowersOfTauConfig::new(k);
        PowersOfTauSession { config, is_first: !initial_exists }
    }

    /// Whether the ceremony may be initialized: only by its first
    /// participant.
    pub fn initialize(&self) -> (r: Result<(), CeremonyError>)
        ensures
            self.is_first ==> r is Ok,
            !self.is_first ==> r == Err::<(), CeremonyError>(CeremonyError::AlreadyExists),
    {
        if !self.is_first {
            Err(CeremonyError::AlreadyExists)
        } else {
            Ok(())
        }
    }

    /// The file that this participant's contribution continues: the initial
    /// parameters for the first participant, the latest contribution for
    /// the others.
    pub fn previous_path(&self) -> (r: &String)
        ensures
            *r == if self.is_first {
                self.config.initial_ptau_path
            } else {
                self.config.contribution_path
            },
    {
        if self.is_first {
            &self.config.initial_ptau_path
        } else {
            &self.config.contribution_path
        }
    }

    /// Records a contribution: the seed, the parameters that came out, the
    /// time, and, unless this is the first participant, the digest of the
    /// file that was continued.
    pub fn create_contribution(
        &self,
        seed: &[u8],
        params: Vec<u8>,
        timestamp: u64,
        previous_file: &[u8],
    ) -> (r: PowersOfTauContribution)
        ensures
            r.randomness@ == seed@,
            r.params@ == params@,
            r.timestamp == timestamp,
            self.is_first ==> r.prev_hash is None,
            !self.is_first ==> r.prev_hash is Some && r.prev_hash.unwrap()@ == sha256_digest(
                previous_file@,
            ),
    {
        let prev_hash = if !self.is_first {
            Some(sha256(previous_file))
        } else {
            None
        };
        PowersOfTauContribution {
            randomness: vstd::slice::slice_to_vec(seed),
            params,
            timestamp,
            prev_hash,
        }
    }

    /// Holds a contribution against the file it claims to continue. A
    /// contribution that names a digest is accepted only if `current_file`
    /// has that digest.
    pub fn apply_contribution(&self, contribution: &PowersOfTauContribution, current_file: &[u8])
        -> (r: Result<(), CeremonyError>)
        ensures
            r is Ok <==> (contribution.prev_hash is None || contribution.prev_hash.unwrap()@
                == sha256_digest(current_file@)),
            r is Err ==> r == Err::<(), CeremonyError>(CeremonyError::InvalidData),
    {
        match &contribution.prev_hash {
            Some(prev_hash) => {
                if digest_matches(current_file, prev_hash.as_slice()) {
                    Ok(())
                } else {
                    Err(CeremonyError::InvalidData)
                }
            },
            None => Ok(()),
        }
    }

    /// Whether the final parameters have the digest recorded for them.
    /// Without parameters there is nothing to trust; without a recorded
    /// digest there is nothing to hold them against.
    pub fn verify_srs(&self, srs: Option<&[u8]>, stored_hash: Option<&[u8]>) -> (r: Result<
        bool,
        CeremonyError,
    >)
        ensures
            srs is None ==> r == Ok::<bool, CeremonyError>(false),
            srs is Some && stored_hash is None ==> r == Err::<bool, CeremonyError>(
                CeremonyError::NotFound,
            ),
            srs is Some && stored_hash is Some ==> r == Ok::<bool, CeremonyError>(
                sha256_digest(srs.unwrap()@) == stored_hash.unwrap()@,
            ),
    {
        match srs {
            None => Ok(false),
            Some(bytes) => match stored_hash {
                None => Err(CeremonyError::NotFound),
                Some(stored) => Ok(digest_matches(bytes, stored)),
            },
        }
    }
}

} // verus!
