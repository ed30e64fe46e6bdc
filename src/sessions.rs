use vstd::prelude::*;

verus! {

/// How far the sender of a room key was trusted when the key arrived.
#[derive(Debug, Clone, Copy, PartialEq, Eq)]
pub enum SenderTrust {
    /// The sending device was not known.
    UnknownDevice,
    /// The sending device was known and not verified.
    UnverifiedDevice,
    /// The sending device was verified.
    VerifiedDevice,
}

/// The order of trust: a higher rank is more trusted.
pub open spec fn trust_rank(t: SenderTrust) -> nat {
    match t {
        SenderTrust::UnknownDevice => 0,
        SenderTrust::UnverifiedDevice => 1,
        SenderTrust::VerifiedDevice => 2,
    }
}

impl SenderTrust {
    /// The rank of this trust.
    pub fn rank(&self) -> (r: u8)
        ensures
            r as nat == trust_rank(*self),
    {
        match self {
            SenderTrust::UnknownDevice => 0,
            SenderTrust::UnverifiedDevice => 1,
            SenderTrust::VerifiedDevice => 2,
        }
    }
}

/// A room key: what decrypts one Megolm session of a room.
#[derive(Debug, Clone, PartialEq, Eq)]
pub struct InboundGroupSession {
    pub room_id: String,
    pub session_id: String,
    /// The session key, in base64.
    pub session_key: String,
    /// The Curve25519 key of the device that sent it, in base64.
    pub sender_key: String,
    pub trust: SenderTrust,
}

/// A descriptor of a room key that became available.
#[derive(Debug, Clone, PartialEq, Eq)]
pub struct RoomKeyInfo {
    pub room_id: String,
    pub session_id: String,
    pub sender_key: String,
}

impl InboundGroupSession {
    /// A copy of this session.
    pub fn copy(&self) -> (r: Self)
        ensures
            r == *self,
    {
        InboundGroupSession {
            room_id: self.room_id.clone(),
            session_id: self.session_id.clone(),
            session_key: self.session_key.clone(),
            sender_key: self.sender_key.clone(),
            trust: self.trust,
        }
    }

    /// The descriptor of this session.
    pub fn info(&self) -> (r: RoomKeyInfo)
        ensures
            r == info_of(*self),
    {
        RoomKeyInfo {
            room_id: self.room_id.clone(),
            session_id: self.session_id.clone(),
            sender_key: self.sender_key.clone(),
        }
    }
}

/// The descriptor of a session.
pub open spec fn info_of(s: InboundGroupSession) -> RoomKeyInfo {
    RoomKeyInfo { room_id: s.room_id, session_id: s.session_id, sender_key: s.sender_key }
}

/// The session is the one of this room and session id.
pub open spec fn has_ids(s: InboundGroupSession, room_id: Seq<char>, session_id: Seq<char>) -> bool {
    s.room_id@ == room_id && s.session_id@ == session_id
}

/// No two sessions share a room id and a session id.
pub open spec fn unique_ids(s: Seq<InboundGroupSession>) -> bool {
    forall|i: int, j: int|
        0 <= i < s.len() && 0 <= j < s.len() && i != j
            ==> !has_ids(s[i], s[j].room_id@, s[j].session_id@)
}

/// Where the session of this room and session id stands, or -1.
pub open spec fn index_of(s: Seq<InboundGroupSession>, room_id: Seq<char>, session_id: Seq<char>) -> int
    decreases s.len(),
{
    if s.len() == 0 {
        -1
    } else if has_ids(s.last(), room_id, session_id) {
        s.len() - 1
    } else {
        index_of(s.drop_last(), room_id, session_id)
    }
}

/// The session of this room and session id, if any.
pub open spec fn lookup(s: Seq<InboundGroupSession>, room_id: Seq<char>, session_id: Seq<char>) -> Option<InboundGroupSession> {
    let j = index_of(s, room_id, session_id);
    if j < 0 {
        None
    } else {
        Some(s[j])
    }
}

/// The sessions after importing one: a new session is added; a known one is
/// replaced only by a copy of strictly higher trust.
pub open spec fn import_spec(s: Seq<InboundGroupSession>, x: InboundGroupSession) -> Seq<InboundGroupSession> {
    let j = index_of(s, x.room_id@, x.session_id@);
    if j < 0 {
        s.push(x)
    } else if trust_rank(x.trust) > trust_rank(s[j].trust) {
        s.update(j, x)
    } else {
        s
    }
}

/// The sessions after importing a sequence of them, in order.
pub open spec fn import_all_spec(s: Seq<InboundGroupSession>, xs: Seq<InboundGroupSession>) -> Seq<InboundGroupSession>
    decreases xs.len(),
{
    if xs.len() == 0 {
        s
    } else {
        import_spec(import_all_spec(s, xs.drop_last()), xs.last())
    }
}

pub proof fn lemma_index_of_range(s: Seq<InboundGroupSession>, room_id: Seq<char>, session_id: Seq<char>)
    ensures
        -1 <= index_of(s, room_id, session_id) < s.len(),
        index_of(s, room_id, session_id) >= 0 ==> has_ids(s[index_of(s, room_id, session_id)], room_id, session_id),
        index_of(s, room_id, session_id) < 0 ==> forall|k: int| 0 <= k < s.len() ==> !has_ids(#[trigger] s[k], room_id, session_id),
    decreases s.len(),
{
    if s.len() > 0 {
        lemma_index_of_range(s.drop_last(), room_id, session_id);
        if !has_ids(s.last(), room_id, session_id) {
            assert forall|k: int| 0 <= k < s.len() - 1 implies s[k] == s.drop_last()[k] by {}
        }
    }
}

/// Sequences whose elements match the same ids at each place find them at the same place.
pub proof fn lemma_index_of_same_pattern(s: Seq<InboundGroupSession>, t: Seq<InboundGroupSession>, room_id: Seq<char>, session_id: Seq<char>)
    requires
        s.len() == t.len(),
        forall|k: int| 0 <= k < s.len() ==> (has_ids(s[k], room_id, session_id) <==> has_ids(t[k], room_id, session_id)),
    ensures
        index_of(s, room_id, session_id) == index_of(t, room_id, session_id),
    decreases s.len(),
{
    if s.len() > 0 {
        lemma_index_of_same_pattern(s.drop_last(), t.drop_last(), room_id, session_id);
    }
}

/// Replacing a session by one of the same ids keeps every lookup's place.
pub proof fn lemma_update_same_ids(s: Seq<InboundGroupSession>, j: int, x: InboundGroupSession, room_id: Seq<char>, session_id: Seq<char>)
    requires
        0 <= j < s.len(),
        x.room_id@ == s[j].room_id@,
        x.session_id@ == s[j].session_id@,
    ensures
        index_of(s.update(j, x), room_id, session_id) == index_of(s, room_id, session_id),
{
    lemma_index_of_same_pattern(s.update(j, x), s, room_id, session_id);
}

/// Importing keeps the ids unique.
pub proof fn lemma_import_unique(s: Seq<InboundGroupSession>, x: InboundGroupSession)
    requires
        unique_ids(s),
    ensures
        unique_ids(import_spec(s, x)),
{
    let j = index_of(s, x.room_id@, x.session_id@);
    lemma_index_of_range(s, x.room_id@, x.session_id@);
    let t = import_spec(s, x);
    if j < 0 {
        assert forall|a: int, b: int|
            0 <= a < t.len() && 0 <= b < t.len() && a != b
                implies !has_ids(t[a], t[b].room_id@, t[b].session_id@) by {
            if a == s.len() as int {
                assert(!has_ids(s[b], x.room_id@, x.session_id@));
            } else if b == s.len() as int {
                assert(!has_ids(s[a], x.room_id@, x.session_id@));
            }
        }
    } else {
        assert forall|a: int, b: int|
            0 <= a < t.len() && 0 <= b < t.len() && a != b
                implies !has_ids(t[a], t[b].room_id@, t[b].session_id@) by {
            assert(has_ids(s[j], x.room_id@, x.session_id@));
        }
    }
}

/// After an import the imported ids are found, holding the import itself or a
/// known session of at least its trust; every other lookup is unchanged.
pub proof fn lemma_import_lookup(s: Seq<InboundGroupSession>, x: InboundGroupSession, room_id: Seq<char>, session_id: Seq<char>)
    ensures
        (room_id == x.room_id@ && session_id == x.session_id@) ==> (match lookup(import_spec(s, x), room_id, session_id) {
            Some(y) => match lookup(s, room_id, session_id) {
                Some(o) => (y == o && trust_rank(o.trust) >= trust_rank(x.trust)) || (y == x && trust_rank(x.trust) > trust_rank(o.trust)),
                None => y == x,
            },
            None => false,
        }),
        !(room_id == x.room_id@ && session_id == x.session_id@) ==> lookup(import_spec(s, x), room_id, session_id) == lookup(s, room_id, session_id),
{
    let j = index_of(s, x.room_id@, x.session_id@);
    lemma_index_of_range(s, x.room_id@, x.session_id@);
    lemma_index_of_range(s, room_id, session_id);
    if j < 0 {
        assert(s.push(x).drop_last() =~= s);
    } else if trust_rank(x.trust) > trust_rank(s[j].trust) {
        lemma_update_same_ids(s, j, x, room_id, session_id);
    }
}

/// Importing the same room key twice leaves one session under its ids, as
/// after the first import, and no import lowers the trust recorded for them.
pub proof fn lemma_import_idempotent(s: Seq<InboundGroupSession>, x: InboundGroupSession)
    requires
        unique_ids(s),
    ensures
        import_spec(import_spec(s, x), x) == import_spec(s, x),
        unique_ids(import_spec(s, x)),
        lookup(import_spec(s, x), x.room_id@, x.session_id@) matches Some(y) && trust_rank(y.trust) >= trust_rank(x.trust),
        lookup(s, x.room_id@, x.session_id@) matches Some(o) ==> (lookup(import_spec(s, x), x.room_id@, x.session_id@) matches Some(y) && trust_rank(y.trust) >= trust_rank(o.trust)),
{
    lemma_import_unique(s, x);
    lemma_import_lookup(s, x, x.room_id@, x.session_id@);
    let t = import_spec(s, x);
    lemma_index_of_range(t, x.room_id@, x.session_id@);
}

/// Every session of `xs` is known in `s` with at least its trust.
pub open spec fn covers(s: Seq<InboundGroupSession>, xs: Seq<InboundGroupSession>) -> bool {
    forall|k: int| 0 <= k < xs.len() ==> (lookup(s, #[trigger] xs[k].room_id@, xs[k].session_id@) matches Some(y)
        && trust_rank(y.trust) >= trust_rank(xs[k].trust))
}

proof fn lemma_import_keeps_cover(s: Seq<InboundGroupSession>, xs: Seq<InboundGroupSession>, x: InboundGroupSession)
    requires
        covers(s, xs),
    ensures
        covers(import_spec(s, x), xs.push(x)),
{
    let t = import_spec(s, x);
    lemma_import_lookup(s, x, x.room_id@, x.session_id@);
    assert forall|k: int| 0 <= k < xs.len() + 1 implies (lookup(t, #[trigger] xs.push(x)[k].room_id@, xs.push(x)[k].session_id@) matches Some(y)
        && trust_rank(y.trust) >= trust_rank(xs.push(x)[k].trust)) by {
        if k < xs.len() {
            lemma_import_lookup(s, x, xs[k].room_id@, xs[k].session_id@);
        }
    }
}

proof fn lemma_import_all_covers(s: Seq<InboundGroupSession>, xs: Seq<InboundGroupSession>)
    ensures
        covers(import_all_spec(s, xs), xs),
    decreases xs.len(),
{
    if xs.len() > 0 {
        lemma_import_all_covers(s, xs.drop_last());
        lemma_import_keeps_cover(import_all_spec(s, xs.drop_last()), xs.drop_last(), xs.last());
        assert(xs.drop_last().push(xs.last()) =~= xs);
    }
}

proof fn lemma_import_all_covered(t: Seq<InboundGroupSession>, ys: Seq<InboundGroupSession>)
    requires
        covers(t, ys),
    ensures
        import_all_spec(t, ys) == t,
    decreases ys.len(),
{
    if ys.len() > 0 {
        assert(covers(t, ys.drop_last())) by {
            assert forall|k: int| 0 <= k < ys.drop_last().len() implies (lookup(t, #[trigger] ys.drop_last()[k].room_id@, ys.drop_last()[k].session_id@) matches Some(y)
                && trust_rank(y.trust) >= trust_rank(ys.drop_last()[k].trust)) by {
                assert(ys.drop_last()[k] == ys[k]);
            }
        }
        lemma_import_all_covered(t, ys.drop_last());
        let x = ys.last();
        assert(lookup(t, ys[ys.len() - 1].room_id@, ys[ys.len() - 1].session_id@) matches Some(y) && trust_rank(y.trust) >= trust_rank(x.trust));
    }
}

/// Importing the same batch of room keys again changes nothing: a harvest
/// that is driven twice leaves the store as the first run did.
pub proof fn lemma_import_all_idempotent(s: Seq<InboundGroupSession>, xs: Seq<InboundGroupSession>)
    ensures
        import_all_spec(import_all_spec(s, xs), xs) == import_all_spec(s, xs),
{
    lemma_import_all_covers(s, xs);
    lemma_import_all_covered(import_all_spec(s, xs), xs);
}

/// Finds where the session of these ids stands, as `index_of` says.
pub fn find_session(sessions: &Vec<InboundGroupSession>, room_id: &String, session_id: &String) -> (r: Option<usize>)
    ensures
        match r {
            Some(j) => j as int == index_of(sessions@, room_id@, session_id@),
            None => index_of(sessions@, room_id@, session_id@) == -1,
        },
{
    let mut i: usize = sessions.len();
    assert(sessions@.subrange(0, i as int) =~= sessions@);
    while i > 0
        invariant
            i <= sessions@.len(),
            index_of(sessions@, room_id@, session_id@) == index_of(sessions@.subrange(0, i as int), room_id@, session_id@),
        decreases i,
    {
        let s = &sessions[i - 1];
        assert(sessions@.subrange(0, i as int).drop_last() =~= sessions@.subrange(0, i - 1));
        if s.room_id == *room_id && s.session_id == *session_id {
            return Some(i - 1);
        }
        i = i - 1;
    }
    None
}

/// Imports one room key into a list of sessions: a new one is added, a known
/// one is replaced only by a copy of strictly higher trust.
pub fn import_session(sessions: &mut Vec<InboundGroupSession>, x: InboundGroupSession)
    requires
        unique_ids(old(sessions)@),
    ensures
        final(sessions)@ == import_spec(old(sessions)@, x),
        unique_ids(final(sessions)@),
{
    proof {
        lemma_import_unique(sessions@, x);
        lemma_index_of_range(sessions@, x.room_id@, x.session_id@);
    }
    match find_session(sessions, &x.room_id, &x.session_id) {
        None => {
            sessions.push(x);
        },
        Some(j) => {
            if x.trust.rank() > sessions[j].trust.rank() {
                sessions.set(j, x);
            }
        },
    }
}

/// Imports room keys in order.
pub fn import_sessions(sessions: &mut Vec<InboundGroupSession>, xs: &Vec<InboundGroupSession>)
    requires
        unique_ids(old(sessions)@),
    ensures
        final(sessions)@ == import_all_spec(old(sessions)@, xs@),
        unique_ids(final(sessions)@),
{
    let ghost start = sessions@;
    let mut i: usize = 0;
    while i < xs.len()
        invariant
            i <= xs@.len(),
            unique_ids(sessions@),
            sessions@ == import_all_spec(start, xs@.subrange(0, i as int)),
        decreases xs@.len() - i,
    {
        import_session(sessions, xs[i].copy());
        assert(xs@.subrange(0, i + 1).drop_last() =~= xs@.subrange(0, i as int));
        i = i + 1;
    }
    assert(xs@.subrange(0, xs@.len() as int) =~= xs@);
}

} // verus!
