//! The session registry: the root that all operations key through.
//!
//! The registry is modelled as a finite map from session identifier to
//! live session (its view). A session is in the map exactly while its PTY
//! pair is open and its child was spawned; insertion is the single
//! transition to "live", removal the single transition to "gone", and
//! removal always precedes the release of the underlying OS handles.
use vstd::prelude::*;
use crate::errors::SessionError;
use crate::errors::SpawnError;
use crate::options::resolve_shell;
use crate::options::resolved_shell;
use crate::options::SessionInfo;
use crate::options::SpawnOptions;
use crate::pty_os::cancel_pair;
use crate::pty_os::child_pid;
use crate::pty_os::clone_reader;
use crate::pty_os::command_env;
use crate::pty_os::command_new;
use crate::pty_os::master_resize;
use crate::pty_os::new_session_id;
use crate::pty_os::open_pty;
use crate::pty_os::raise_cancel;
use crate::pty_os::spawn_child;
use crate::pty_os::take_writer;
use crate::pty_os::writer_send;
use crate::pty_os::CancelFlag;
use crate::pty_os::ChildHandle;
use crate::pty_os::MasterHandle;
use crate::pty_os::PtyReader;
use crate::pty_os::PtyWriter;

verus! {

/// One live session: the child process, the PTY master, the exclusive
/// writer, and the cancellation flag shared with the reader loop.
pub struct PtySession {
    pub id: String,
    pub child: ChildHandle,
    pub master: MasterHandle,
    pub writer: PtyWriter,
    pub cancel: CancelFlag,
}

impl PtySession {
    /// Bundles the parts of a freshly spawned session.
    pub fn new(
        id: String,
        child: ChildHandle,
        master: MasterHandle,
        writer: PtyWriter,
        cancel: CancelFlag,
    ) -> (r: Self)
        ensures
            r == (PtySession { id, child, master, writer, cancel }),
    {
        PtySession { id, child, master, writer, cancel }
    }
}

/// What the caller needs to run a session's reader loop: the read side of
/// the PTY pair and the cancellation flag that `close` raises.
pub struct ReaderTask {
    pub reader: PtyReader,
    pub cancel: CancelFlag,
}

/// Whether some position of `s` holds a session with identifier `id`.
pub open spec fn has_id(s: Seq<PtySession>, id: Seq<char>) -> bool {
    exists|i: int| 0 <= i < s.len() && (#[trigger] s[i].id@) == id
}

/// No two positions of `s` hold the same identifier.
pub open spec fn distinct_ids(s: Seq<PtySession>) -> bool {
    forall|i: int, j: int|
        0 <= i < j < s.len() ==> (#[trigger] s[i].id@) != (#[trigger] s[j].id@)
}

/// The sessions of `s` as a map from identifier to session; a later
/// position wins where two positions share an identifier.
pub open spec fn session_map(s: Seq<PtySession>) -> Map<Seq<char>, PtySession>
    decreases s.len(),
{
    if s.len() == 0 {
        Map::empty()
    } else {
        session_map(s.drop_last()).insert(s.last().id@, s.last())
    }
}

proof fn lemma_session_map_contains(s: Seq<PtySession>, id: Seq<char>)
    ensures
        session_map(s).contains_key(id) <==> has_id(s, id),
    decreases s.len(),
{
    if s.len() == 0 {
    } else {
        let dl = s.drop_last();
        lemma_session_map_contains(dl, id);
        if id == s.last().id@ {
            assert(s[s.len() - 1].id@ == id);
        } else {
            if has_id(s, id) {
                let i = choose|i: int| 0 <= i < s.len() && (#[trigger] s[i].id@) == id;
                assert(dl[i] == s[i]);
            }
            if has_id(dl, id) {
                let i = choose|i: int| 0 <= i < dl.len() && (#[trigger] dl[i].id@) == id;
                assert(s[i] == dl[i]);
            }
        }
    }
}

proof fn lemma_distinct_drop_last(s: Seq<PtySession>)
    requires
        distinct_ids(s),
        s.len() > 0,
    ensures
        distinct_ids(s.drop_last()),
{
    let dl = s.drop_last();
    assert forall|i: int, j: int| 0 <= i < j < dl.len() implies (#[trigger] dl[i].id@)
        != (#[trigger] dl[j].id@) by {
        assert(dl[i] == s[i]);
        assert(dl[j] == s[j]);
    }
}

proof fn lemma_distinct_remove(s: Seq<PtySession>, i: int)
    requires
        distinct_ids(s),
        0 <= i < s.len(),
    ensures
        distinct_ids(s.remove(i)),
        forall|j: int|
            0 <= j < s.remove(i).len() ==> (#[trigger] s.remove(i)[j].id@) != s[i].id@,
{
    s.remove_ensures(i);
    let r = s.remove(i);
    assert forall|a: int, b: int| 0 <= a < b < r.len() implies (#[trigger] r[a].id@)
        != (#[trigger] r[b].id@) by {
        assert(r[a] == if a < i { s[a] } else { s[a + 1] });
        assert(r[b] == if b < i { s[b] } else { s[b + 1] });
    }
    assert forall|j: int| 0 <= j < r.len() implies (#[trigger] r[j].id@) != s[i].id@ by {
        assert(r[j] == if j < i { s[j] } else { s[j + 1] });
    }
}

proof fn lemma_session_map_remove(s: Seq<PtySession>, i: int)
    requires
        distinct_ids(s),
        0 <= i < s.len(),
    ensures
        session_map(s.remove(i)) == session_map(s).remove(s[i].id@),
    decreases s.len(),
{
    let dl = s.drop_last();
    if i == s.len() - 1 {
        assert(s.remove(i) =~= dl);
        lemma_session_map_contains(dl, s[i].id@);
        lemma_distinct_drop_last(s);
        assert(!has_id(dl, s[i].id@)) by {
            if has_id(dl, s[i].id@) {
                let j = choose|j: int| 0 <= j < dl.len() && (#[trigger] dl[j].id@) == s[i].id@;
                assert(dl[j] == s[j]);
            }
        }
        assert(session_map(s).remove(s[i].id@) =~= session_map(dl));
    } else {
        lemma_distinct_drop_last(s);
        lemma_session_map_remove(dl, i);
        s.remove_ensures(i);
        dl.remove_ensures(i);
        let r = s.remove(i);
        assert(r.last() == s.last());
        assert(r.drop_last() =~= dl.remove(i));
        assert(session_map(r) == session_map(dl.remove(i)).insert(s.last().id@, s.last()));
        assert(s[i].id@ != s.last().id@);
        assert(session_map(dl).remove(s[i].id@).insert(s.last().id@, s.last()) =~= session_map(
            dl,
        ).insert(s.last().id@, s.last()).remove(s[i].id@));
    }
}

proof fn lemma_session_map_push(s: Seq<PtySession>, x: PtySession)
    ensures
        session_map(s.push(x)) == session_map(s).insert(x.id@, x),
{
    assert(s.push(x).drop_last() =~= s);
    assert(s.push(x).last() == x);
}

/// The registry of all live sessions, keyed by their identifiers. Its view
/// is the map from identifier to session.
pub struct PtyManager {
    sessions: Vec<PtySession>,
}

impl View for PtyManager {
    type V = Map<Seq<char>, PtySession>;

    closed spec fn view(&self) -> Map<Seq<char>, PtySession> {
        session_map(self.sessions@)
    }
}

impl PtyManager {
    /// Well-formedness: no identifier is live twice. `new` establishes it
    /// and every operation preserves it.
    pub closed spec fn wf(self) -> bool {
        distinct_ids(self.sessions@)
    }

    /// Creates an empty registry; it lives as long as the enclosing
    /// application process, and every session in it is ephemeral.
    pub fn new() -> (r: Self)
        ensures
            r@ == Map::<Seq<char>, PtySession>::empty(),
            r.wf(),
    {
        PtyManager { sessions: Vec::new() }
    }

    /// The position of the session with the given identifier, if any.
    fn index_of(&self, session_id: &str) -> (r: Option<usize>)
        ensures
            match r {
                Some(i) => i < self.sessions@.len() && self.sessions@[i as int].id@
                    == session_id@,
                None => !has_id(self.sessions@, session_id@),
            },
    {
        let target: String = session_id.to_owned();
        let n: usize = self.sessions.len();
        let mut i: usize = 0;
        while i < n
            invariant
                n == self.sessions@.len(),
                i <= n,
                target@ == session_id@,
                forall|j: int| 0 <= j < i ==> (#[trigger] self.sessions@[j].id@) != session_id@,
            decreases n - i,
        {
            if self.sessions[i].id == target {
                return Some(i);
            }
            i = i + 1;
        }
        None
    }

    /// Installs a freshly spawned session under `id` and returns the
    /// caller's snapshot. A session already live under the same identifier
    /// is displaced, so the registry keys stay unique.
    fn install_session(
        &mut self,
        id: String,
        shell: String,
        pid: u32,
        child: ChildHandle,
        master: MasterHandle,
        writer: PtyWriter,
        cancel: CancelFlag,
    ) -> (info: SessionInfo)
        requires
            old(self).wf(),
        ensures
            final(self).wf(),
            info.id@ == id@,
            info.pid == pid,
            info.shell@ == shell@,
            final(self)@ == old(self)@.insert(
                id@,
                (PtySession { id, child, master, writer, cancel }),
            ),
    {
        match self.index_of(id.as_str()) {
            Some(i) => {
                proof {
                    lemma_session_map_remove(self.sessions@, i as int);
                    lemma_distinct_remove(self.sessions@, i as int);
                }
                let _displaced = self.sessions.remove(i);
            },
            None => {},
        }
        proof {
            lemma_session_map_contains(self.sessions@, id@);
            lemma_session_map_push(
                self.sessions@,
                PtySession { id, child, master, writer, cancel },
            );
        }
        let info_id: String = id.clone();
        let session = PtySession::new(id, child, master, writer, cancel);
        self.sessions.push(session);
        proof {
            assert(final(self)@ =~= old(self)@.insert(
                id@,
                (PtySession { id, child, master, writer, cancel }),
            ));
        }
        SessionInfo { id: info_id, pid, shell }
    }

    /// Spawns a new session: opens a PTY pair of the requested size, starts
    /// the resolved shell on its slave side with the requested environment,
    /// and installs the session under a fresh identifier. On any failing
    /// stage nothing is installed and the registry is exactly as before.
    /// `env_shell` is the surrounding environment's default shell, used
    /// when the options name none.
    pub fn spawn(&mut self, options: SpawnOptions, env_shell: Option<String>) -> (r: Result<
        (SessionInfo, ReaderTask),
        SpawnError,
    >)
        requires
            old(self).wf(),
            options.cols > 0,
            options.rows > 0,
        ensures
            final(self).wf(),
            r matches Ok(ok) ==> {
                &&& ok.0.shell@ == resolved_shell(options.shell, env_shell)
                &&& ok.0.id@.len() == 36
                &&& final(self)@.contains_key(ok.0.id@)
                &&& final(self)@[ok.0.id@].id@ == ok.0.id@
                &&& final(self)@ == old(self)@.insert(ok.0.id@, final(self)@[ok.0.id@])
            },
            r matches Err(_) ==> final(self)@ == old(self)@,
    {
        let SpawnOptions { shell: opt_shell, cols, rows, env } = options;
        let id = new_session_id();
        let shell = resolve_shell(opt_shell, env_shell);

        let (master, slave) = match open_pty(cols, rows) {
            Ok(pair) => pair,
            Err(m) => {
                return Err(SpawnError::PtyOpen(m));
            },
        };

        let mut cmd = command_new(&shell);
        match &env {
            Some(vars) => {
                let n: usize = vars.len();
                let mut i: usize = 0;
                while i < n
                    invariant
                        n == vars@.len(),
                        i <= n,
                    decreases n - i,
                {
                    command_env(&mut cmd, vars[i].0.as_str(), vars[i].1.as_str());
                    i = i + 1;
                }
            },
            None => {},
        }
        command_env(&mut cmd, "TERM", "xterm-256color");
        command_env(&mut cmd, "COLORTERM", "truecolor");

        let child = match spawn_child(&slave, cmd) {
            Ok(c) => c,
            Err(m) => {
                return Err(SpawnError::ChildSpawn(m));
            },
        };
        let pid = match child_pid(&child) {
            Some(p) => p,
            None => 0,
        };

        let writer = match take_writer(&master) {
            Ok(w) => w,
            Err(m) => {
                return Err(SpawnError::WriterUnavailable(m));
            },
        };
        let reader = match clone_reader(&master) {
            Ok(rd) => rd,
            Err(m) => {
                return Err(SpawnError::WriterUnavailable(m));
            },
        };

        let (cancel_keep, cancel_task) = cancel_pair();
        let info = self.install_session(id, shell, pid, child, master, writer, cancel_keep);
        Ok((info, ReaderTask { reader, cancel: cancel_task }))
    }

    /// Writes the bytes of `data` to the addressed session and flushes
    /// them, under the writer's exclusion lock. A failed write leaves the
    /// session addressable; only an absent identifier is `NotFound`.
    pub fn write(&self, session_id: &str, data: &str) -> (r: Result<(), SessionError>)
        ensures
            (r == Err::<(), SessionError>(SessionError::NotFound)) <==> !self@.contains_key(
                session_id@,
            ),
    {
        proof {
            lemma_session_map_contains(self.sessions@, session_id@);
        }
        match self.index_of(session_id) {
            Some(i) => {
                match writer_send(&self.sessions[i].writer, data.as_bytes()) {
                    Ok(()) => Ok(()),
                    Err(m) => Err(SessionError::Io(m)),
                }
            },
            None => Err(SessionError::NotFound),
        }
    }

    /// Resizes the addressed session's PTY to the given cell dimensions
    /// (pixel sizes are not tracked and passed as zero). Resize is
    /// idempotent and never removes a session; only an absent identifier
    /// is `NotFound`.
    pub fn resize(&self, session_id: &str, cols: u16, rows: u16) -> (r: Result<(), SessionError>)
        ensures
            (r == Err::<(), SessionError>(SessionError::NotFound)) <==> !self@.contains_key(
                session_id@,
            ),
    {
        proof {
            lemma_session_map_contains(self.sessions@, session_id@);
        }
        match self.index_of(session_id) {
            Some(i) => {
                match master_resize(&self.sessions[i].master, cols, rows) {
                    Ok(()) => Ok(()),
                    Err(m) => Err(SessionError::Io(m)),
                }
            },
            None => Err(SessionError::NotFound),
        }
    }

    /// Removes the addressed session from the registry, then raises its
    /// reader loop's cancellation flag and releases the OS handles by
    /// dropping them — in that order, so no caller can observe a
    /// half-torn-down session. Closing an absent identifier is an error,
    /// not a no-op, so a double close is detectable.
    pub fn close(&mut self, session_id: &str) -> (r: Result<(), SessionError>)
        requires
            old(self).wf(),
        ensures
            final(self).wf(),
            old(self)@.contains_key(session_id@) ==> r == Ok::<(), SessionError>(())
                && final(self)@ == old(self)@.remove(session_id@),
            !old(self)@.contains_key(session_id@) ==> r == Err::<(), SessionError>(
                SessionError::NotFound,
            ) && final(self)@ == old(self)@,
    {
        proof {
            lemma_session_map_contains(self.sessions@, session_id@);
        }
        match self.index_of(session_id) {
            Some(i) => {
                proof {
                    lemma_session_map_remove(self.sessions@, i as int);
                    lemma_distinct_remove(self.sessions@, i as int);
                }
                let session = self.sessions.remove(i);
                raise_cancel(&session.cancel);
                Ok(())
            },
            None => Err(SessionError::NotFound),
        }
    }
}

/// A spawn leaves its identifier live and every other session exactly as
/// it was: installing a session under a fresh identifier disturbs no other
/// entry of the registry. Together with `spawn`'s contract this is what a
/// successful spawn does to the registry; that the drawn identifier itself
/// repeats no earlier one rests on the randomness of the generator.
pub proof fn lemma_spawn_disturbs_no_other(
    m: Map<Seq<char>, PtySession>,
    id: Seq<char>,
    s: PtySession,
)
    ensures
        m.insert(id, s).contains_key(id),
        m.insert(id, s)[id] == s,
        forall|k: Seq<char>|
            k != id ==> (#[trigger] m.insert(id, s).contains_key(k)) == m.contains_key(k),
        forall|k: Seq<char>|
            k != id && m.contains_key(k) ==> (#[trigger] m.insert(id, s)[k]) == m[k],
{
}

/// Close is not idempotent: a successful close removes the identifier, so
/// by `close`'s contract a second close of the same identifier finds
/// nothing and returns `NotFound`, while every other session is untouched.
pub proof fn lemma_close_twice(m: Map<Seq<char>, PtySession>, id: Seq<char>)
    requires
        m.contains_key(id),
    ensures
        !m.remove(id).contains_key(id),
        forall|k: Seq<char>|
            k != id ==> (#[trigger] m.remove(id).contains_key(k)) == m.contains_key(k),
        forall|k: Seq<char>|
            k != id && m.contains_key(k) ==> (#[trigger] m.remove(id)[k]) == m[k],
{
}

} // verus!
