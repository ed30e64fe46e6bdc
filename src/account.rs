use vstd::prelude::*;

verus! {

/// How many recently visited rooms are kept.
pub const VISITED_ROOMS_LIMIT: usize = 20;

/// Errors of the account operations.
#[derive(Debug, Clone, Copy, PartialEq, Eq)]
pub enum AccountError {
    /// No user is logged in.
    AuthenticationRequired,
    /// The logged-in user cannot ignore themself.
    CantIgnoreLoggedInUser,
}

/// The client-side state that the account operations read and write: the
/// logged-in user, the recently visited rooms, the ignored users.
pub struct Client {
    pub user_id: Option<String>,
    /// Most recent first.
    pub recently_visited_rooms: Vec<String>,
    pub ignored_users: Vec<String>,
}

/// The operations on the logged-in user's account.
pub struct Account {
    pub client: Client,
}

/// A sequence of texts without the given one.
pub open spec fn without(s: Seq<Seq<char>>, x: Seq<char>) -> Seq<Seq<char>>
    decreases s.len(),
{
    if s.len() == 0 {
        seq![]
    } else if s.last() == x {
        without(s.drop_last(), x)
    } else {
        without(s.drop_last(), x).push(s.last())
    }
}

/// The recently visited rooms after visiting one: it moves to the front, and
/// the list is cut to its limit.
pub open spec fn visited_after(rooms: Seq<Seq<char>>, room_id: Seq<char>) -> Seq<Seq<char>> {
    let l = seq![room_id] + without(rooms, room_id);
    if l.len() > VISITED_ROOMS_LIMIT {
        l.subrange(0, VISITED_ROOMS_LIMIT as int)
    } else {
        l
    }
}

/// The views of a list of strings.
pub open spec fn views(v: Seq<String>) -> Seq<Seq<char>> {
    v.map_values(|s: String| s@)
}

impl Account {
    /// The account of a client.
    pub fn new(client: Client) -> (r: Account)
        ensures
            r.client == client,
    {
        Account { client }
    }

    /// The recently visited rooms, most recent first.
    pub fn get_recently_visited_rooms(&self) -> (r: Result<Vec<String>, AccountError>)
        ensures
            self.client.user_id is None <==> r is Err,
            r matches Err(e) ==> e == AccountError::AuthenticationRequired,
            r matches Ok(v) ==> views(v@) == views(self.client.recently_visited_rooms@),
    {
        if self.client.user_id.is_none() {
            return Err(AccountError::AuthenticationRequired);
        }
        let mut out: Vec<String> = Vec::new();
        let mut i: usize = 0;
        while i < self.client.recently_visited_rooms.len()
            invariant
                i <= self.client.recently_visited_rooms@.len(),
                views(out@) == views(self.client.recently_visited_rooms@.subrange(0, i as int)),
            decreases self.client.recently_visited_rooms@.len() - i,
        {
            let ghost prev = out@;
            out.push(self.client.recently_visited_rooms[i].clone());
            assert(self.client.recently_visited_rooms@.subrange(0, i + 1) =~= self.client.recently_visited_rooms@.subrange(0, i as int).push(self.client.recently_visited_rooms@[i as int]));
            assert(views(out@) =~= views(prev).push(self.client.recently_visited_rooms@[i as int]@));
            assert(views(self.client.recently_visited_rooms@.subrange(0, i + 1)) =~= views(self.client.recently_visited_rooms@.subrange(0, i as int)).push(self.client.recently_visited_rooms@[i as int]@));
            i = i + 1;
        }
        assert(self.client.recently_visited_rooms@.subrange(0, i as int) =~= self.client.recently_visited_rooms@);
        Ok(out)
    }

    /// Moves or inserts a room at the front of the recently visited rooms,
    /// keeping at most the limit.
    pub fn track_recently_visited_room(&mut self, room_id: String) -> (r: Result<(), AccountError>)
        ensures
            old(self).client.user_id is None <==> r is Err,
            r matches Err(e) ==> (e == AccountError::AuthenticationRequired
                && final(self).client.recently_visited_rooms == old(self).client.recently_visited_rooms),
            r is Ok ==> views(final(self).client.recently_visited_rooms@) == visited_after(views(old(self).client.recently_visited_rooms@), room_id@),
            final(self).client.user_id == old(self).client.user_id,
            final(self).client.ignored_users == old(self).client.ignored_users,
    {
        if self.client.user_id.is_none() {
            return Err(AccountError::AuthenticationRequired);
        }
        let ghost before = views(self.client.recently_visited_rooms@);
        let mut kept: Vec<String> = Vec::new();
        kept.push(room_id.clone());
        assert(views(kept@) =~= seq![room_id@] + without(before.subrange(0, 0), room_id@));
        let mut i: usize = 0;
        let n = self.client.recently_visited_rooms.len();
        while i < n
            invariant
                n == self.client.recently_visited_rooms@.len(),
                before == views(self.client.recently_visited_rooms@),
                i <= n,
                views(kept@) == seq![room_id@] + without(before.subrange(0, i as int), room_id@),
            decreases n - i,
        {
            assert(before.subrange(0, i + 1).drop_last() =~= before.subrange(0, i as int));
            assert(before[i as int] == self.client.recently_visited_rooms@[i as int]@);
            let ghost prev = kept@;
            if self.client.recently_visited_rooms[i] != room_id {
                kept.push(self.client.recently_visited_rooms[i].clone());
                assert(views(kept@) =~= views(prev).push(before[i as int]));
            }
            assert(views(kept@) =~= seq![room_id@] + without(before.subrange(0, i + 1), room_id@));
            i = i + 1;
        }
        assert(before.subrange(0, n as int) =~= before);
        if kept.len() > VISITED_ROOMS_LIMIT {
            kept.truncate(VISITED_ROOMS_LIMIT);
            assert(views(kept@) =~= visited_after(before, room_id@));
        }
        self.client.recently_visited_rooms = kept;
        Ok(())
    }

    /// Adds a user to the ignore list; the logged-in user cannot be ignored.
    pub fn ignore_user(&mut self, user_id: &String) -> (r: Result<(), AccountError>)
        ensures
            old(self).client.user_id is None ==> r == Err::<(), AccountError>(AccountError::AuthenticationRequired),
            old(self).client.user_id matches Some(own) ==> (r is Err <==> own@ == user_id@),
            r matches Err(e) ==> final(self).client.ignored_users == old(self).client.ignored_users,
            (old(self).client.user_id matches Some(own) && own@ == user_id@) ==> r == Err::<(), AccountError>(AccountError::CantIgnoreLoggedInUser),
            r is Ok ==> (if views(old(self).client.ignored_users@).contains(user_id@) {
                views(final(self).client.ignored_users@) == views(old(self).client.ignored_users@)
            } else {
                views(final(self).client.ignored_users@) == views(old(self).client.ignored_users@).push(user_id@)
            }),
            final(self).client.user_id == old(self).client.user_id,
            final(self).client.recently_visited_rooms == old(self).client.recently_visited_rooms,
    {
        match &self.client.user_id {
            None => {
                return Err(AccountError::AuthenticationRequired);
            },
            Some(own) => {
                if *own == *user_id {
                    return Err(AccountError::CantIgnoreLoggedInUser);
                }
            },
        }
        let mut i: usize = 0;
        while i < self.client.ignored_users.len()
            invariant
                i <= self.client.ignored_users@.len(),
                forall|j: int| 0 <= j < i ==> self.client.ignored_users@[j]@ != user_id@,
                *self == *old(self),
                self.client.user_id matches Some(own) && own@ != user_id@,
            decreases self.client.ignored_users@.len() - i,
        {
            if self.client.ignored_users[i] == *user_id {
                assert(views(self.client.ignored_users@)[i as int] == user_id@);
                return Ok(());
            }
            i = i + 1;
        }
        assert(!views(self.client.ignored_users@).contains(user_id@));
        let ghost before = self.client.ignored_users@;
        self.client.ignored_users.push(user_id.clone());
        assert(views(self.client.ignored_users@) =~= views(before).push(user_id@));
        Ok(())
    }

    /// Removes a user from the ignore list; returns whether it was there.
    pub fn unignore_user(&mut self, user_id: &String) -> (r: bool)
        ensures
            r == views(old(self).client.ignored_users@).contains(user_id@),
            views(final(self).client.ignored_users@) == without(views(old(self).client.ignored_users@), user_id@),
            final(self).client.user_id == old(self).client.user_id,
            final(self).client.recently_visited_rooms == old(self).client.recently_visited_rooms,
    {
        let ghost before = views(self.client.ignored_users@);
        let mut kept: Vec<String> = Vec::new();
        let mut found = false;
        let mut i: usize = 0;
        let n = self.client.ignored_users.len();
        while i < n
            invariant
                n == self.client.ignored_users@.len(),
                before == views(self.client.ignored_users@),
                i <= n,
                views(kept@) == without(before.subrange(0, i as int), user_id@),
                found == before.subrange(0, i as int).contains(user_id@),
            decreases n - i,
        {
            assert(before.subrange(0, i + 1).drop_last() =~= before.subrange(0, i as int));
            assert(before.subrange(0, i + 1) =~= before.subrange(0, i as int).push(before[i as int]));
            let ghost prev = kept@;
            if self.client.ignored_users[i] == *user_id {
                found = true;
            } else {
                kept.push(self.client.ignored_users[i].clone());
                assert(views(kept@) =~= views(prev).push(before[i as int]));
            }
            assert(views(kept@) =~= without(before.subrange(0, i + 1), user_id@));
            i = i + 1;
        }
        assert(before.subrange(0, n as int) =~= before);
        self.client.ignored_users = kept;
        found
    }
}

} // verus!
