//! Saved sessions: SSH hosts, WSL distributions and local shells, and the
//! list that holds them.

use vstd::prelude::*;
use crate::text::str_eq;

verus! {

/// A point in time: seconds since the Unix epoch (UTC) and the nanoseconds
/// within that second.
#[derive(Debug, Clone, Copy, PartialEq, Eq, Structural)]
pub struct Timestamp {
    pub secs: i64,
    pub nanos: u32,
}

/// How an SSH session authenticates.
#[derive(Debug, Clone)]
pub enum AuthMethod {
    Password,
    /// A private key file, by its path.
    Key(String),
    Agent,
}

/// The connection details of an SSH session.
#[derive(Debug, Clone)]
pub struct SshSession {
    pub host: String,
    pub port: u16,
    pub username: String,
    pub auth_method: AuthMethod,
}

/// The details of a WSL session.
#[derive(Debug, Clone)]
pub struct WslSession {
    pub distribution: String,
    pub default_command: Option<String>,
}

/// What a session connects to.
#[derive(Debug, Clone)]
pub enum SessionType {
    Ssh(SshSession),
    Wsl(WslSession),
    Local,
}

/// A saved session.
#[derive(Debug, Clone)]
pub struct Session {
    pub id: String,
    pub name: String,
    pub session_type: SessionType,
    pub created_at: Timestamp,
    pub last_used: Option<Timestamp>,
    pub tags: Vec<String>,
}

/// Whether a session of type `t` is listed under the filter word `filter`:
/// `ssh`, `wsl` and `local` select one type, `all` selects every session.
pub open spec fn type_matches(t: SessionType, filter: Seq<char>) -> bool {
    ||| t is Ssh && filter == "ssh"@
    ||| t is Wsl && filter == "wsl"@
    ||| t is Local && filter == "local"@
    ||| filter == "all"@
}

/// The sessions of `s` that the filter word `filter` selects, in order.
pub open spec fn sessions_of_type(s: Seq<Session>, filter: Seq<char>) -> Seq<Session>
    decreases s.len(),
{
    if s.len() == 0 {
        seq![]
    } else {
        let rest = sessions_of_type(s.drop_last(), filter);
        if type_matches(s.last().session_type, filter) {
            rest.push(s.last())
        } else {
            rest
        }
    }
}

/// `i` is the first position in `s` of a session with identifier `id`.
pub open spec fn is_first_with_id(s: Seq<Session>, id: Seq<char>, i: int) -> bool {
    &&& 0 <= i < s.len()
    &&& s[i].id@ == id
    &&& forall|j: int| 0 <= j < i ==> #[trigger] s[j].id@ != id
}

/// No session in `s` has identifier `id`.
pub open spec fn has_no_id(s: Seq<Session>, id: Seq<char>) -> bool {
    forall|j: int| 0 <= j < s.len() ==> #[trigger] s[j].id@ != id
}

/// The saved sessions, and the file they are saved in.
#[derive(Debug, Clone)]
pub struct SessionManager {
    pub sessions: Vec<Session>,
    pub file_path: String,
}

impl SessionManager {
    /// An empty list that is saved in `file_path`.
    pub fn new(file_path: String) -> (r: Self)
        ensures
            r.sessions@ == Seq::<Session>::empty(),
            r.file_path == file_path,
    {
        SessionManager { sessions: Vec::new(), file_path }
    }

    /// The list `sessions`, saved in `file_path`.
    pub fn with_sessions(file_path: String, sessions: Vec<Session>) -> (r: Self)
        ensures
            r.sessions@ == sessions@,
            r.file_path == file_path,
    {
        SessionManager { sessions, file_path }
    }

    /// Appends `session` to the list.
    pub fn add_session(&mut self, session: Session)
        ensures
            final(self).sessions@ == old(self).sessions@.push(session),
            final(self).file_path@ == old(self).file_path@,
    {
        self.sessions.push(session);
    }

    /// The position of the first session with identifier `id`.
    fn position(&self, id: &str) -> (r: Option<usize>)
        ensures
            match r {
                Some(i) => is_first_with_id(self.sessions@, id@, i as int),
                None => has_no_id(self.sessions@, id@),
            },
    {
        let mut i: usize = 0;
        while i < self.sessions.len()
            invariant
                i <= self.sessions@.len(),
                forall|j: int| 0 <= j < i ==> #[trigger] self.sessions@[j].id@ != id@,
            decreases self.sessions@.len() - i,
        {
            if str_eq(self.sessions[i].id.as_str(), id) {
                return Some(i);
            }
            i += 1;
        }
        None
    }

    /// Removes the first session with identifier `id` and returns it; where
    /// there is none, the list is unchanged.
    pub fn remove_session(&mut self, id: &str) -> (r: Option<Session>)
        ensures
            final(self).file_path@ == old(self).file_path@,
            match r {
                Some(s) => exists|i: int|
                    is_first_with_id(old(self).sessions@, id@, i) && s == old(self).sessions@[i]
                        && final(self).sessions@ == old(self).sessions@.remove(i),
                None => has_no_id(old(self).sessions@, id@) && final(self).sessions@ == old(
                    self,
                ).sessions@,
            },
    {
        match self.position(id) {
            Some(pos) => Some(self.sessions.remove(pos)),
            None => None,
        }
    }

    /// The first session with identifier `id`.
    pub fn get_session(&self, id: &str) -> (r: Option<&Session>)
        ensures
            match r {
                Some(s) => exists|i: int|
                    is_first_with_id(self.sessions@, id@, i) && *s == self.sessions@[i],
                None => has_no_id(self.sessions@, id@),
            },
    {
        match self.position(id) {
            Some(pos) => Some(&self.sessions[pos]),
            None => None,
        }
    }

    /// The first session with identifier `id`, to change in place.
    pub fn get_session_mut(&mut self, id: &str) -> (r: Option<&mut Session>)
        ensures
            final(self).file_path == old(self).file_path,
            match r {
                Some(s) => exists|i: int|
                    is_first_with_id(old(self).sessions@, id@, i) && *s == old(self).sessions@[i]
                        && final(self).sessions@ == old(self).sessions@.update(i, *final(s)),
                None => has_no_id(old(self).sessions@, id@) && final(self).sessions@ == old(
                    self,
                ).sessions@,
            },
    {
        match self.position(id) {
            Some(pos) => Some(&mut self.sessions[pos]),
            None => None,
        }
    }

    /// The sessions that the filter word selects (`ssh`, `wsl`, `local` or
    /// `all`), in order.
    pub fn list_by_type(&self, filter: &str) -> (r: Vec<&Session>)
        ensures
            r@.len() == sessions_of_type(self.sessions@, filter@).len(),
            forall|i: int|
                0 <= i < r@.len() ==> *r@[i] == #[trigger] sessions_of_type(
                    self.sessions@,
                    filter@,
                )[i],
    {
        let is_ssh = str_eq(filter, "ssh");
        let is_wsl = str_eq(filter, "wsl");
        let is_local = str_eq(filter, "local");
        let is_all = str_eq(filter, "all");
        let mut r: Vec<&Session> = Vec::new();
        let mut i: usize = 0;
        assert(self.sessions@.take(0) =~= Seq::<Session>::empty());
        while i < self.sessions.len()
            invariant
                i <= self.sessions@.len(),
                is_ssh == (filter@ == "ssh"@),
                is_wsl == (filter@ == "wsl"@),
                is_local == (filter@ == "local"@),
                is_all == (filter@ == "all"@),
                r@.len() == sessions_of_type(self.sessions@.take(i as int), filter@).len(),
                forall|k: int|
                    0 <= k < r@.len() ==> *r@[k] == #[trigger] sessions_of_type(
                        self.sessions@.take(i as int),
                        filter@,
                    )[k],
            decreases self.sessions@.len() - i,
        {
            let s = &self.sessions[i];
            let keep = match s.session_type {
                SessionType::Ssh(_) => is_ssh || is_all,
                SessionType::Wsl(_) => is_wsl || is_all,
                SessionType::Local => is_local || is_all,
            };
            assert(self.sessions@.take(i + 1).drop_last() =~= self.sessions@.take(i as int));
            if keep {
                r.push(s);
            }
            i += 1;
        }
        assert(self.sessions@.take(self.sessions@.len() as int) =~= self.sessions@);
        r
    }
}


/// There is at most one first position of an identifier: the session that
/// `get_session` finds is the one that `remove_session` takes out.
pub proof fn law_first_with_id_unique(s: Seq<Session>, id: Seq<char>, i: int, j: int)
    requires
        is_first_with_id(s, id, i),
        is_first_with_id(s, id, j),
    ensures
        i == j,
{
    if i < j {
        assert(s[i].id@ != id);
    } else if j < i {
        assert(s[j].id@ != id);
    }
}

/// Adding a session whose identifier is new and then removing that
/// identifier gives the added session back and leaves the list as it was.
pub proof fn law_remove_undoes_add(s: Seq<Session>, x: Session)
    requires
        has_no_id(s, x.id@),
    ensures
        is_first_with_id(s.push(x), x.id@, s.len() as int),
        s.push(x)[s.len() as int] == x,
        s.push(x).remove(s.len() as int) == s,
{
    assert(forall|j: int| 0 <= j < s.len() ==> s.push(x)[j] == s[j]);
    assert(s.push(x).remove(s.len() as int) =~= s);
}

/// Every session is listed under `all`.
pub proof fn law_all_lists_every_session(s: Seq<Session>)
    ensures
        sessions_of_type(s, "all"@) == s,
    decreases s.len(),
{
    if s.len() > 0 {
        law_all_lists_every_session(s.drop_last());
        assert(s.drop_last().push(s.last()) =~= s);
    }
}

/// Each session is listed under exactly one of `ssh`, `wsl` and `local`, so
/// those three lists together are as long as the whole list.
pub proof fn law_type_lists_partition(s: Seq<Session>)
    ensures
        sessions_of_type(s, "ssh"@).len() + sessions_of_type(s, "wsl"@).len() + sessions_of_type(
            s,
            "local"@,
        ).len() == s.len(),
    decreases s.len(),
{
    reveal_strlit("ssh");
    reveal_strlit("wsl");
    reveal_strlit("local");
    reveal_strlit("all");
    assert("ssh"@[0] != "all"@[0]);
    assert("wsl"@[0] != "all"@[0]);
    assert("local"@.len() != "all"@.len());
    assert("ssh"@[0] != "wsl"@[0]);
    assert("ssh"@.len() != "local"@.len());
    assert("wsl"@.len() != "local"@.len());
    if s.len() > 0 {
        law_type_lists_partition(s.drop_last());
    }
}

/// Adding a session adds it at the end of the lists it belongs to, after
/// the sessions they held.
pub proof fn law_add_extends_lists(s: Seq<Session>, x: Session, filter: Seq<char>)
    ensures
        sessions_of_type(s.push(x), filter) == if type_matches(x.session_type, filter) {
            sessions_of_type(s, filter).push(x)
        } else {
            sessions_of_type(s, filter)
        },
{
    assert(s.push(x).drop_last() =~= s);
}


/// Where some session has identifier `id`, there is a first one.
pub proof fn lemma_first_with_id_exists(s: Seq<Session>, id: Seq<char>, k: int)
    requires
        0 <= k < s.len(),
        s[k].id@ == id,
    ensures
        exists|i: int| is_first_with_id(s, id, i),
    decreases k,
{
    if forall|j: int| 0 <= j < k ==> #[trigger] s[j].id@ != id {
        assert(is_first_with_id(s, id, k));
    } else {
        let j = choose|j: int| 0 <= j < k && #[trigger] s[j].id@ == id;
        lemma_first_with_id_exists(s, id, j);
    }
}

} // verus!
