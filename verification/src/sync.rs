//! The client synchronization core: consumer-visible leaderboard state, the
//! exclusively-locked pending slots that background tasks write, the shared
//! outcome queue, and the single synchronization step that merges them.
//!
//! The network round-trips themselves live outside this crate: a consumer
//! call either rejects synchronously or hands back a request value; the
//! caller performs the round-trip on a worker and reports the outcome
//! through a `PendingState` completion method; a later synchronization step
//! publishes the merged state.

use vstd::prelude::*;

use crate::ids::spec_hyphenated;
use crate::ids::UuidBytes;
use crate::integrity;
use crate::integrity::spec_tag;
use crate::ranking;
use crate::ranking::spec_rank;
use crate::ranking::Score;

verus! {

/// One drained outcome, tagged by the operation that produced it.
#[derive(Clone, Copy, Debug, PartialEq, Eq, Structural)]
pub enum LeaderboardResult {
    SendScoreEvent(SendScoreEvent),
    CreatePlayerEvent(CreatePlayerEvent),
    RefreshLeaderboardEvent(RefreshLeaderboardEvent),
}

/// Outcome of a send-score background task.
#[derive(Clone, Copy, Debug, PartialEq, Eq, Structural)]
pub enum SendScoreEvent {
    /// Success
    Success,
    /// Failure
    Failure,
}

/// Outcome of a create-player background task.
#[derive(Clone, Copy, Debug, PartialEq, Eq, Structural)]
pub enum CreatePlayerEvent {
    /// Success
    Success,
    /// Failure
    Failure,
}

/// Outcome of a refresh-leaderboard background task.
#[derive(Clone, Copy, Debug, PartialEq, Eq, Structural)]
pub enum RefreshLeaderboardEvent {
    /// Success
    Success,
    /// Failure
    Failure,
}

/// A player: the id names it, the key is the secret MAC key that must never
/// be transmitted except at creation or lookup.
pub struct Player {
    /// Its id.
    pub id: UuidBytes,
    /// Its secret MAC key.
    pub key: UuidBytes,
    /// Its name.
    pub name: String,
}

impl Clone for Player {
    fn clone(&self) -> (r: Self)
        ensures
            r.id@ == self.id@,
            r.key@ == self.key@,
            r.name@ == self.name@,
    {
        Player { id: self.id.clone(), key: self.key.clone(), name: self.name.clone() }
    }
}

/// The wire form of a score submission, built per call and never persisted:
/// the raw score bits, the player id, the optional metadata, the client
/// timestamp, and the integrity tag `k` over exactly those fields.
pub struct ScoreInput {
    /// The raw bits of the float score value, exactly as signed and sent.
    pub score_bits: u32,
    /// The submitting player's id.
    pub player: UuidBytes,
    /// Optional metadata, signed only when present.
    pub meta: Option<String>,
    /// Client-clock seconds at submission.
    pub timestamp: u64,
    /// The integrity tag, lowercase hex.
    pub k: String,
}

impl ScoreInput {
    /// Builds a submission: the tag binds the player's secret key, the
    /// leaderboard key, the player id, the score bits, the metadata when
    /// present, and the timestamp. The clock is the caller's: `timestamp`
    /// comes in as an argument rather than from any one platform clock.
    pub fn new(
        leaderboard_key: &UuidBytes,
        score_bits: u32,
        player: &Player,
        meta: Option<String>,
        timestamp: u64,
    ) -> (r: ScoreInput)
        ensures
            r.score_bits == score_bits,
            r.player@ == player.id@,
            r.timestamp == timestamp,
            r.meta == meta,
            r.k@ == spec_tag(
                player.key@,
                leaderboard_key@,
                player.id@,
                score_bits,
                match meta {
                    None => None,
                    Some(m) => Some(vstd::utf8::encode_utf8(m@)),
                },
                timestamp,
            ),
            r.k@.len() == 64,
    {
        let meta_ref: Option<&str> = match &meta {
            Some(m) => Some(m.as_str()),
            None => None,
        };
        let k = match integrity::sign(
            player.key.bytes(),
            leaderboard_key.bytes(),
            player.id.bytes(),
            score_bits,
            meta_ref,
            timestamp,
        ) {
            Ok(tag) => tag,
            Err(_) => {
                proof {
                    assert(false);
                }
                String::new()
            },
        };
        ScoreInput { score_bits, player: player.id.clone(), meta, timestamp, k }
    }
}

/// A create-player request to be posted by the caller's transport.
pub struct CreatePlayerRequest {
    /// Where to post it.
    pub url: String,
    /// The requested name, or none to let the server pick one.
    pub name: Option<String>,
}

/// A send-score request to be posted by the caller's transport.
pub struct SendScoreRequest {
    /// Where to post it.
    pub url: String,
    /// The signed submission.
    pub input: ScoreInput,
}

/// A refresh request to be fetched by the caller's transport.
pub struct RefreshRequest {
    /// Where to fetch from.
    pub url: String,
}

/// The mathematical content of the pending state.
pub ghost struct PendingModel {
    /// The refresh slot: a fetched batch awaiting the next tick.
    pub updating: Option<Seq<Score>>,
    /// The create-player slot: a created player awaiting the next tick.
    pub new_player: Option<Player>,
    /// The outcome queue, oldest first.
    pub results: Seq<LeaderboardResult>,
}

/// The pending slots and the outcome queue. One value of this type is meant
/// to sit behind the caller's lock: a background task takes the lock only to
/// push its one result, the synchronization step only to drain.
pub struct PendingState {
    updating: Option<Vec<Score>>,
    new_player: Option<Player>,
    results: Vec<LeaderboardResult>,
}

impl View for PendingState {
    type V = PendingModel;

    closed spec fn view(&self) -> PendingModel {
        PendingModel {
            updating: match self.updating {
                Some(ref v) => Some(v@),
                None => None,
            },
            new_player: self.new_player,
            results: self.results@,
        }
    }
}

impl PendingState {
    /// Empty slots, empty queue.
    pub fn new() -> (r: PendingState)
        ensures
            r@.updating is None,
            r@.new_player is None,
            r@.results == Seq::<LeaderboardResult>::empty(),
    {
        PendingState { updating: None, new_player: None, results: Vec::new() }
    }

    /// A create-player task finished: on success the new player fills its
    /// slot (overwriting any earlier occupant, which supports reconnecting)
    /// and a success outcome is queued; on failure only a failure outcome is
    /// queued and the slot is left untouched.
    pub fn complete_create_player(&mut self, result: Option<Player>)
        ensures
            final(self)@.updating == old(self)@.updating,
            result matches Some(p) ==> final(self)@.new_player == Some(p) && final(self)@.results
                == old(self)@.results.push(
                LeaderboardResult::CreatePlayerEvent(CreatePlayerEvent::Success),
            ),
            result is None ==> final(self)@.new_player == old(self)@.new_player
                && final(self)@.results == old(self)@.results.push(
                LeaderboardResult::CreatePlayerEvent(CreatePlayerEvent::Failure),
            ),
    {
        match result {
            Some(p) => {
                self.results.push(LeaderboardResult::CreatePlayerEvent(CreatePlayerEvent::Success));
                self.new_player = Some(p);
            },
            None => {
                self.results.push(LeaderboardResult::CreatePlayerEvent(CreatePlayerEvent::Failure));
            },
        }
    }

    /// A send-score task finished: exactly one outcome is queued; no other
    /// state changes, the submitted value is never echoed into local state.
    pub fn complete_send_score(&mut self, success: bool)
        ensures
            final(self)@.updating == old(self)@.updating,
            final(self)@.new_player == old(self)@.new_player,
            final(self)@.results == old(self)@.results.push(
                if success {
                    LeaderboardResult::SendScoreEvent(SendScoreEvent::Success)
                } else {
                    LeaderboardResult::SendScoreEvent(SendScoreEvent::Failure)
                },
            ),
    {
        if success {
            self.results.push(LeaderboardResult::SendScoreEvent(SendScoreEvent::Success));
        } else {
            self.results.push(LeaderboardResult::SendScoreEvent(SendScoreEvent::Failure));
        }
    }

    /// A refresh task finished: on success the fetched batch replaces the
    /// slot's content wholesale and a success outcome is queued; on failure
    /// only a failure outcome is queued and any previously fetched batch
    /// stays, so good state is never overwritten by a failure.
    pub fn complete_refresh(&mut self, fetched: Option<Vec<Score>>)
        ensures
            final(self)@.new_player == old(self)@.new_player,
            fetched matches Some(batch) ==> final(self)@.updating == Some(batch@)
                && final(self)@.results == old(self)@.results.push(
                LeaderboardResult::RefreshLeaderboardEvent(RefreshLeaderboardEvent::Success),
            ),
            fetched is None ==> final(self)@.updating == old(self)@.updating && final(self)@.results
                == old(self)@.results.push(
                LeaderboardResult::RefreshLeaderboardEvent(RefreshLeaderboardEvent::Failure),
            ),
    {
        match fetched {
            Some(batch) => {
                self.updating = Some(batch);
                self.results.push(
                    LeaderboardResult::RefreshLeaderboardEvent(RefreshLeaderboardEvent::Success),
                );
            },
            None => {
                self.results.push(
                    LeaderboardResult::RefreshLeaderboardEvent(RefreshLeaderboardEvent::Failure),
                );
            },
        }
    }
}

/// The mathematical content of the consumer-visible leaderboard state.
pub ghost struct LeaderboardModel {
    /// The leaderboard's id.
    pub id: Seq<u8>,
    /// The leaderboard's key, signed into every submission.
    pub key: Seq<u8>,
    /// The server's base address.
    pub host: Seq<char>,
    /// The consumer-visible view, replaced wholesale on refresh.
    pub leaderboard: Seq<Score>,
    /// The current player, if one was created or adopted.
    pub player: Option<Player>,
}

/// The consumer-visible leaderboard state.
pub struct Leaderboard {
    id: UuidBytes,
    key: UuidBytes,
    host: String,
    leaderboard: Vec<Score>,
    player: Option<Player>,
}

/// The consumer-visible view never exceeds the ranking cap: it starts
/// empty and is only ever replaced by a reduced batch.
#[verifier::type_invariant]
pub closed spec fn leaderboard_wf(lb: Leaderboard) -> bool {
    lb.leaderboard@.len() <= ranking::LEADERBOARD_CAP
}

impl View for Leaderboard {
    type V = LeaderboardModel;

    closed spec fn view(&self) -> LeaderboardModel {
        LeaderboardModel {
            id: self.id@,
            key: self.key@,
            host: self.host@,
            leaderboard: self.leaderboard@,
            player: self.player,
        }
    }
}

impl Leaderboard {
    /// Fresh state for one leaderboard: empty view, no player, and the
    /// given host or the public default.
    pub fn with_host_and_leaderboard(host: Option<String>, id: UuidBytes, key: UuidBytes) -> (r:
        Leaderboard)
        ensures
            r@.id == id@,
            r@.key == key@,
            r@.leaderboard == Seq::<Score>::empty(),
            r@.player is None,
            host matches Some(h) ==> r@.host == h@,
            host is None ==> r@.host == ("https://jornet.vleue.com")@,
    {
        let host = match host {
            Some(h) => h,
            None => String::from_str("https://jornet.vleue.com"),
        };
        Leaderboard { id, key, host, leaderboard: Vec::new(), player: None }
    }

    /// The current player, to read the generated name or to save the id and
    /// key for reconnecting later.
    pub fn get_player(&self) -> (r: Option<&Player>)
        ensures
            r is Some <==> self@.player is Some,
            r matches Some(p) ==> self@.player == Some(*p),
    {
        self.player.as_ref()
    }

    /// Adopts a returning player. Either this or a completed create-player
    /// round-trip must happen before a score can be sent.
    pub fn as_player(&mut self, player: Player)
        ensures
            final(self)@.player == Some(player),
            final(self)@.id == old(self)@.id,
            final(self)@.key == old(self)@.key,
            final(self)@.host == old(self)@.host,
            final(self)@.leaderboard == old(self)@.leaderboard,
    {
        proof {
            use_type_invariant(&*self);
        }
        self.player = Some(player);
    }

    /// The request that creates a player (a random name is generated
    /// server-side when none is given). The caller posts it on a worker and
    /// reports the response through `PendingState::complete_create_player`;
    /// this call itself never touches pending or visible state.
    pub fn create_player(&self, name: Option<&str>) -> (r: CreatePlayerRequest)
        ensures
            r.url@ == self@.host + ("/api/v1/players")@,
            r.name matches Some(n) ==> name matches Some(m) && n@ == m@,
            r.name is None <==> name is None,
    {
        let url = self.host.clone().concat("/api/v1/players");
        let name = match name {
            Some(n) => Some(String::from_str(n)),
            None => None,
        };
        CreatePlayerRequest { url, name }
    }

    /// The signed send-score request for the current player, or `None` as
    /// the synchronous precondition failure when no player is set: no task
    /// should be spawned and no outcome will ever be queued for such a call.
    pub fn send_score(&self, score_bits: u32, timestamp: u64) -> (r: Option<SendScoreRequest>)
        ensures
            r is Some <==> self@.player is Some,
            r matches Some(req) ==> send_score_request_ok(req, self@, score_bits, None, timestamp),
    {
        self.inner_send_score_with_meta(score_bits, None, timestamp)
    }

    /// As `send_score`, with metadata signed into the tag.
    pub fn send_score_with_meta(&self, score_bits: u32, meta: &str, timestamp: u64) -> (r: Option<
        SendScoreRequest,
    >)
        ensures
            r is Some <==> self@.player is Some,
            r matches Some(req) ==> send_score_request_ok(
                req,
                self@,
                score_bits,
                Some(meta@),
                timestamp,
            ),
    {
        self.inner_send_score_with_meta(score_bits, Some(meta), timestamp)
    }

    fn inner_send_score_with_meta(&self, score_bits: u32, meta: Option<&str>, timestamp: u64) -> (r:
        Option<SendScoreRequest>)
        ensures
            r is Some <==> self@.player is Some,
            r matches Some(req) ==> send_score_request_ok(
                req,
                self@,
                score_bits,
                match meta {
                    None => None,
                    Some(m) => Some(m@),
                },
                timestamp,
            ),
    {
        match &self.player {
            Some(player) => {
                let meta_owned = match meta {
                    Some(m) => Some(String::from_str(m)),
                    None => None,
                };
                let input = ScoreInput::new(&self.key, score_bits, player, meta_owned, timestamp);
                let url = self.scores_url();
                Some(SendScoreRequest { url, input })
            },
            None => None,
        }
    }

    /// The request that fetches the most recent leaderboard data. The caller
    /// performs it on a worker and reports the parsed batch (or the failure)
    /// through `PendingState::complete_refresh`; the view itself changes
    /// only at the next synchronization step.
    pub fn refresh_leaderboard(&self) -> (r: RefreshRequest)
        ensures
            r.url@ == self@.host + ("/api/v1/scores/")@ + spec_hyphenated(self@.id),
    {
        RefreshRequest { url: self.scores_url() }
    }

    /// The leaderboard data as last merged by the synchronization step;
    /// never more than the ranking cap of entries.
    pub fn get_leaderboard(&self) -> (r: Vec<Score>)
        ensures
            ranking::score_models(r@) == ranking::score_models(self@.leaderboard),
            r@.len() <= ranking::LEADERBOARD_CAP,
    {
        proof {
            use_type_invariant(self);
        }
        let mut out: Vec<Score> = Vec::new();
        let mut i: usize = 0;
        while i < self.leaderboard.len()
            invariant
                i <= self.leaderboard.len(),
                self@.leaderboard == self.leaderboard@,
                out@.len() == i,
                forall|j: int| 0 <= j < i ==> #[trigger] out@[j]@ == self.leaderboard@[j]@,
            decreases self.leaderboard.len() - i,
        {
            out.push(self.leaderboard[i].clone());
            i += 1;
        }
        proof {
            assert(ranking::score_models(out@) =~= ranking::score_models(self@.leaderboard));
        }
        out
    }

    fn scores_url(&self) -> (r: String)
        ensures
            r@ == self@.host + ("/api/v1/scores/")@ + spec_hyphenated(self@.id),
    {
        let url = self.host.clone().concat("/api/v1/scores/");
        url.concat(self.id.to_hyphenated().as_str())
    }
}

/// What a well-formed send-score request promises: the url names this
/// leaderboard's scores endpoint, and the submission is signed over exactly
/// the current player, this leaderboard's key, and the given fields.
pub open spec fn send_score_request_ok(
    req: SendScoreRequest,
    lb: LeaderboardModel,
    score_bits: u32,
    meta: Option<Seq<char>>,
    timestamp: u64,
) -> bool {
    &&& lb.player is Some
    &&& req.url@ == lb.host + ("/api/v1/scores/")@ + spec_hyphenated(lb.id)
    &&& req.input.score_bits == score_bits
    &&& (match lb.player {
        Some(p) => req.input.player@ == p.id@,
        None => false,
    })
    &&& (match (req.input.meta, meta) {
        (Some(m), Some(given)) => m@ == given,
        (None, None) => true,
        _ => false,
    })
    &&& req.input.timestamp == timestamp
    &&& (match lb.player {
        Some(p) => req.input.k@ == spec_tag(
            p.key@,
            lb.key,
            p.id@,
            score_bits,
            match req.input.meta {
                None => None,
                Some(m) => Some(vstd::utf8::encode_utf8(m@)),
            },
            timestamp,
        ),
        None => false,
    })
}

/// The merge half of the synchronization step. A filled refresh slot
/// replaces the visible leaderboard wholesale with the reduced batch and
/// empties the slot; a filled create-player slot replaces the current player
/// and empties the slot; an empty slot leaves its state untouched. The
/// outcome queue is not touched here.
pub fn done_refreshing_leaderboard(leaderboard: &mut Leaderboard, pending: &mut PendingState)
    ensures
        final(leaderboard)@.id == old(leaderboard)@.id,
        final(leaderboard)@.key == old(leaderboard)@.key,
        final(leaderboard)@.host == old(leaderboard)@.host,
        old(pending)@.updating matches Some(batch) ==> final(leaderboard)@.leaderboard == spec_rank(
            batch,
        ),
        old(pending)@.updating is None ==> final(leaderboard)@.leaderboard == old(
            leaderboard,
        )@.leaderboard,
        old(pending)@.new_player matches Some(p) ==> final(leaderboard)@.player == Some(p),
        old(pending)@.new_player is None ==> final(leaderboard)@.player == old(leaderboard)@.player,
        final(pending)@.updating is None,
        final(pending)@.new_player is None,
        final(pending)@.results == old(pending)@.results,
{
    match pending.updating.take() {
        Some(batch) => {
            let ghost b = batch@;
            let reduced = ranking::reduce(batch);
            proof {
                ranking::lemma_rank_bounded(b);
            }
            leaderboard.leaderboard = reduced;
        },
        None => {},
    }
    match pending.new_player.take() {
        Some(p) => {
            proof {
                use_type_invariant(&*leaderboard);
            }
            leaderboard.player = Some(p);
        },
        None => {},
    }
}

/// The notification half of the synchronization step: drains the outcome
/// queue and hands the outcomes back in submission order for the caller to
/// republish as discrete notifications. The slots are not touched here.
pub fn send_events(pending: &mut PendingState) -> (r: Vec<LeaderboardResult>)
    ensures
        r@ == old(pending)@.results,
        final(pending)@.results == Seq::<LeaderboardResult>::empty(),
        final(pending)@.updating == old(pending)@.updating,
        final(pending)@.new_player == old(pending)@.new_player,
{
    let mut out: Vec<LeaderboardResult> = Vec::new();
    core::mem::swap(&mut out, &mut pending.results);
    out
}

/// Completing a refresh with a fetched batch and then running one
/// synchronization step publishes exactly the reduced batch and leaves the
/// refresh slot empty: the relation `complete_refresh` establishes between
/// the slot and the batch, chained with the relation the merge step
/// establishes between the slot and the view.
pub proof fn lemma_refresh_then_sync_publishes_reduction(
    slot_after_complete: PendingModel,
    board_after_sync: LeaderboardModel,
    slot_after_sync: PendingModel,
    batch: Seq<Score>,
)
    requires
        slot_after_complete.updating == Some(batch),
        slot_after_complete.updating matches Some(b) ==> board_after_sync.leaderboard == spec_rank(
            b,
        ),
        slot_after_sync.updating is None,
    ensures
        board_after_sync.leaderboard == spec_rank(batch),
        slot_after_sync.updating is None,
{
}

} // verus!
