use vstd::prelude::*;
use vstd::slice::slice_to_vec;
use crate::address::{spec_address_key, ProtocolAddress};
use crate::error::Error;
use crate::keys::{SessionRecord, SessionRecordV};
use crate::records::{lemma_session_round_trip, spec_parse_session, spec_ser_session};
use crate::store::{non_session_views_unchanged, StateStore};

verus! {

/// The send targets owed for one attempt: every device with a live
/// (non-archived) session stored under the recipient's identifier.
#[verifier::loop_isolation(false)]
pub fn load_send_targets(store: &StateStore, recipient: &Vec<u8>) -> (r: Result<
    Vec<(ProtocolAddress, u32)>,
    Error,
>)
    ensures
        (match r {
            Ok(targets) => {
                &&& (forall|i: int|
                    0 <= i < targets@.len() ==> {
                        let k = spec_address_key(
                            (#[trigger] targets@[i]).0.name@,
                            targets@[i].0.device_id,
                        );
                        &&& store.sessions_view().contains_key(k)
                        &&& recipient@.is_prefix_of(k)
                        &&& (spec_parse_session(store.sessions_view()[k]) matches Some(s)
                            && !s.archived && s.registration_id == targets@[i].1)
                    })
                &&& (forall|k: Seq<u8>|
                    #[trigger] store.sessions_view().contains_key(k) && recipient@.is_prefix_of(k)
                        && k.len() >= 4 && (spec_parse_session(store.sessions_view()[k])
                        matches Some(s) && !s.archived) ==> exists|i: int|
                        0 <= i < targets@.len() && #[trigger] spec_address_key(
                            targets@[i].0.name@,
                            targets@[i].0.device_id,
                        ) == k)
            },
            Err(e) => match e {
                Error::Storage(_) => true,
                Error::CorruptRecord(_) => exists|k: Seq<u8>| {
                    &&& #[trigger] store.sessions_view().contains_key(k)
                    &&& recipient@.is_prefix_of(k)
                    &&& (k.len() < 4 || spec_parse_session(store.sessions_view()[k]) is None)
                },
                _ => false,
            },
        }),
{
    let pairs = store.load_sessions_by_prefix(recipient)?;
    let mut out: Vec<(ProtocolAddress, u32)> = Vec::new();
    let mut idx: usize = 0;
    while idx < pairs.len()
        invariant
            idx <= pairs@.len(),
            forall|j: int|
                0 <= j < out@.len() ==> {
                    let k = spec_address_key((#[trigger] out@[j]).0.name@, out@[j].0.device_id);
                    &&& store.sessions_view().contains_key(k)
                    &&& recipient@.is_prefix_of(k)
                    &&& (spec_parse_session(store.sessions_view()[k]) matches Some(s)
                        && !s.archived && s.registration_id == out@[j].1)
                },
            forall|i: int|
                0 <= i < idx && !(#[trigger] pairs@[i]).1@.archived ==> exists|j: int|
                    0 <= j < out@.len() && #[trigger] spec_address_key(
                        out@[j].0.name@,
                        out@[j].0.device_id,
                    ) == spec_address_key(pairs@[i].0.name@, pairs@[i].0.device_id),
        decreases pairs@.len() - idx,
    {
        let ghost out_pre = out@;
        if !pairs[idx].1.archived {
            let name = slice_to_vec(pairs[idx].0.name.as_slice());
            let device_id = pairs[idx].0.device_id;
            let registration_id = pairs[idx].1.remote_registration_id();
            out.push((ProtocolAddress::new(name, device_id), registration_id));
        }
        proof {
            assert forall|i: int|
                0 <= i < idx + 1 && !(#[trigger] pairs@[i]).1@.archived implies exists|j: int|
                0 <= j < out@.len() && #[trigger] spec_address_key(
                    out@[j].0.name@,
                    out@[j].0.device_id,
                ) == spec_address_key(pairs@[i].0.name@, pairs@[i].0.device_id) by {
                if i < idx {
                    let j = choose|j: int|
                        0 <= j < out_pre.len() && #[trigger] spec_address_key(
                            out_pre[j].0.name@,
                            out_pre[j].0.device_id,
                        ) == spec_address_key(pairs@[i].0.name@, pairs@[i].0.device_id);
                    assert(out@[j] == out_pre[j]);
                    assert(spec_address_key(out@[j].0.name@, out@[j].0.device_id)
                        == spec_address_key(pairs@[i].0.name@, pairs@[i].0.device_id));
                } else {
                    let j = out@.len() - 1;
                    assert(spec_address_key(out@[j].0.name@, out@[j].0.device_id)
                        == spec_address_key(pairs@[i].0.name@, pairs@[i].0.device_id));
                }
            }
        }
        idx = idx + 1;
    }
    proof {
        assert forall|k: Seq<u8>|
            #[trigger] store.sessions_view().contains_key(k) && recipient@.is_prefix_of(k)
                && k.len() >= 4 && (spec_parse_session(store.sessions_view()[k]) matches Some(s)
                && !s.archived) implies exists|i: int|
            0 <= i < out@.len() && #[trigger] spec_address_key(
                out@[i].0.name@,
                out@[i].0.device_id,
            ) == k by {
            let i = choose|i: int|
                0 <= i < pairs@.len() && #[trigger] spec_address_key(
                    pairs@[i].0.name@,
                    pairs@[i].0.device_id,
                ) == k;
            assert(spec_parse_session(store.sessions_view()[k]) == Some(pairs@[i].1@));
            assert(!pairs@[i].1@.archived);
        }
    }
    Ok(out)
}

/// The sessions collection after a batch of freshly established sessions is
/// recorded, one insert per entry in order.
pub open spec fn spec_record_sessions(
    m: Map<Seq<u8>, Seq<u8>>,
    recipient: Seq<u8>,
    sessions: Seq<(u32, SessionRecord)>,
) -> Map<Seq<u8>, Seq<u8>>
    decreases sessions.len(),
{
    if sessions.len() == 0 {
        m
    } else {
        spec_record_sessions(m, recipient, sessions.drop_last()).insert(
            spec_address_key(recipient, sessions.last().0),
            spec_ser_session(sessions.last().1@),
        )
    }
}

/// Every device of a recorded batch ends up with a session stored under
/// the recipient's identifier and its device id.
pub proof fn lemma_record_sessions_membership(
    m: Map<Seq<u8>, Seq<u8>>,
    recipient: Seq<u8>,
    sessions: Seq<(u32, SessionRecord)>,
    i: int,
)
    requires
        0 <= i < sessions.len(),
    ensures
        spec_record_sessions(m, recipient, sessions).contains_key(
            spec_address_key(recipient, sessions[i].0),
        ),
    decreases sessions.len(),
{
    if i < sessions.len() - 1 {
        lemma_record_sessions_membership(m, recipient, sessions.drop_last(), i);
    }
}

/// Persist the sessions the key-agreement boundary established, each under
/// the recipient's identifier and its device id.
#[verifier::loop_isolation(false)]
pub fn record_established_sessions(
    store: &mut StateStore,
    recipient: &Vec<u8>,
    sessions: &Vec<(u32, SessionRecord)>,
) -> (r: Result<(), Error>)
    ensures
        r is Ok ==> final(store).sessions_view() == spec_record_sessions(
            old(store).sessions_view(),
            recipient@,
            sessions@,
        ),
        r matches Err(e) ==> e is Storage,
        non_session_views_unchanged(*old(store), *final(store)),
{
    let mut idx: usize = 0;
    while idx < sessions.len()
        invariant
            idx <= sessions@.len(),
            store.sessions_view() == spec_record_sessions(
                old(store).sessions_view(),
                recipient@,
                sessions@.take(idx as int),
            ),
            non_session_views_unchanged(*old(store), *store),
        decreases sessions@.len() - idx,
    {
        let addr = ProtocolAddress::new(slice_to_vec(recipient.as_slice()), sessions[idx].0);
        store.store_session(&addr, &sessions[idx].1)?;
        proof {
            assert(sessions@.take(idx + 1).drop_last() =~= sessions@.take(idx as int));
            assert(sessions@.take(idx + 1).last() == sessions@[idx as int]);
        }
        idx = idx + 1;
    }
    proof {
        assert(sessions@.take(sessions@.len() as int) =~= sessions@);
    }
    Ok(())
}

/// The device-set reconciliation engine for one send operation. The server
/// may report the recipient's device set changed; each such report costs
/// one round, and the rounds are bounded so that a server that never
/// converges turns into an error instead of an endless loop.
pub struct Dispatcher {
    pub max_rounds: u32,
    pub rounds_used: u32,
}

impl Dispatcher {
    pub fn new(max_rounds: u32) -> (r: Self)
        ensures
            r.max_rounds == max_rounds,
            r.rounds_used == 0,
    {
        Dispatcher { max_rounds, rounds_used: 0 }
    }

    /// Handle a device-mismatch report: archive (never delete) the session
    /// of every device the server dropped, and hand back the devices that
    /// still need sessions, to be established before the next attempt.
    /// When the retry budget is spent the report becomes an error instead.
    #[verifier::loop_isolation(false)]
    pub fn on_mismatch(
        &mut self,
        store: &mut StateStore,
        recipient: &Vec<u8>,
        missing: &Vec<u32>,
        extra: &Vec<u32>,
    ) -> (r: Result<Vec<u32>, Error>)
        ensures
            (match r {
                Ok(to_establish) => {
                    &&& to_establish@ == missing@
                    &&& old(self).rounds_used < old(self).max_rounds
                    &&& final(self).rounds_used == old(self).rounds_used + 1
                    &&& final(store).sessions_view().dom() == old(store).sessions_view().dom()
                    &&& (forall|i: int|
                        0 <= i < extra@.len() ==> {
                            let k = spec_address_key(recipient@, #[trigger] extra@[i]);
                            &&& old(store).sessions_view().contains_key(k)
                            &&& (spec_parse_session(old(store).sessions_view()[k]) matches Some(s)
                                && final(store).sessions_view()[k] == spec_ser_session(
                                (SessionRecordV { archived: true, ..s }),
                            ))
                        })
                    &&& (forall|k: Seq<u8>|
                        #[trigger] old(store).sessions_view().contains_key(k) && !(exists|i: int|
                            0 <= i < extra@.len() && k == spec_address_key(
                                recipient@,
                                #[trigger] extra@[i],
                            )) ==> final(store).sessions_view()[k] == old(
                            store,
                        ).sessions_view()[k])
                },
                Err(e) => {
                    &&& (e is Storage || e is CorruptRecord || e is MissingSession
                        || e is ReconciliationDidNotConverge)
                    &&& (e is ReconciliationDidNotConverge ==> *final(store) == *old(store)
                        && *final(self) == *old(self))
                    &&& (old(self).rounds_used >= old(self).max_rounds
                        ==> e is ReconciliationDidNotConverge)
                    &&& (e is ReconciliationDidNotConverge ==> old(self).rounds_used >= old(
                        self,
                    ).max_rounds)
                    &&& (e is MissingSession ==> exists|i: int|
                        0 <= i < extra@.len() && !old(store).sessions_view().contains_key(
                            #[trigger] spec_address_key(recipient@, extra@[i]),
                        ))
                },
            }),
            old(self).rounds_used < old(self).max_rounds && extra@.len() == 0 ==> r is Ok,
            final(self).max_rounds == old(self).max_rounds,
            non_session_views_unchanged(*old(store), *final(store)),
    {
        if self.rounds_used >= self.max_rounds {
            return Err(Error::ReconciliationDidNotConverge);
        }
        self.rounds_used = self.rounds_used + 1;
        let mut idx: usize = 0;
        while idx < extra.len()
            invariant
                idx <= extra@.len(),
                store.sessions_view().dom() == old(store).sessions_view().dom(),
                forall|j: int|
                    0 <= j < idx ==> {
                        let k = spec_address_key(recipient@, #[trigger] extra@[j]);
                        &&& old(store).sessions_view().contains_key(k)
                        &&& (spec_parse_session(old(store).sessions_view()[k]) matches Some(s)
                            && store.sessions_view()[k] == spec_ser_session(
                            (SessionRecordV { archived: true, ..s }),
                        ))
                    },
                forall|k: Seq<u8>|
                    #[trigger] old(store).sessions_view().contains_key(k) && !(exists|j: int|
                        0 <= j < idx && k == spec_address_key(recipient@, #[trigger] extra@[j]))
                        ==> store.sessions_view()[k] == old(store).sessions_view()[k],
                non_session_views_unchanged(*old(store), *store),
            decreases extra@.len() - idx,
        {
            let device_id = extra[idx];
            let ghost k = spec_address_key(recipient@, device_id);
            let addr = ProtocolAddress::new(slice_to_vec(recipient.as_slice()), device_id);
            let loaded = store.load_session(&addr)?;
            let mut session = match loaded {
                Some(session) => session,
                None => {
                    proof {
                        assert(!old(store).sessions_view().contains_key(
                            spec_address_key(recipient@, extra@[idx as int]),
                        ));
                    }
                    return Err(Error::MissingSession);
                },
            };
            proof {
                if exists|j: int|
                    0 <= j < idx && k == spec_address_key(recipient@, #[trigger] extra@[j]) {
                    let j = choose|j: int|
                        0 <= j < idx && k == spec_address_key(recipient@, #[trigger] extra@[j]);
                    let s0 = spec_parse_session(old(store).sessions_view()[k]).unwrap();
                    lemma_session_round_trip((SessionRecordV { archived: true, ..s0 }));
                    assert(session@ == (SessionRecordV { archived: true, ..s0 }));
                } else {
                    assert(store.sessions_view()[k] == old(store).sessions_view()[k]);
                }
            }
            session.archive_current_state();
            store.store_session(&addr, &session)?;
            proof {
                assert(store.sessions_view().dom() =~= old(store).sessions_view().dom());
            }
            idx = idx + 1;
        }
        Ok(slice_to_vec(missing.as_slice()))
    }
}

} // verus!
