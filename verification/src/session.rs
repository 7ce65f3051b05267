//! Paste sessions: which window a paste goes to, and until when.
//!
//! Times are milliseconds of a clock that never goes back.
use crate::classification;
use crate::model::fresh_id;
use crate::text;
use vstd::prelude::*;
use vstd::string::*;

verus! {

/// How long a session lasts, in milliseconds.
pub const SESSION_TTL: u64 = 300_000;

/// A session as its owner sees it.
#[derive(Debug)]
pub struct SessionView {
    pub id: String,
    pub target_available: bool,
    pub paste_mode: &'static str,
    pub expires_in_ms: u64,
    pub state: &'static str,
}

/// The window that a paste goes to.
#[derive(Debug)]
pub struct Target {
    pub address: String,
    pub class: String,
}

/// One session.
#[derive(Debug)]
pub struct Session {
    pub id: String,
    pub target: Option<Target>,
    pub expires: u64,
    pub paste_pending: bool,
}

/// The sessions that are open.
pub struct SessionManager {
    pub sessions: Vec<Session>,
}

/// The session was hidden, and this window is to be pasted into.
pub struct Hidden {
    pub view: SessionView,
    pub paste: Option<Target>,
}

/// Where the session with this identifier stands, or how many there are.
pub open spec fn session_index(sessions: Seq<Session>, id: Seq<char>) -> int
    decreases sessions.len(),
{
    if sessions.len() == 0 || sessions[0].id@ == id {
        0
    } else {
        1 + session_index(sessions.drop_first(), id)
    }
}

/// No identifier is in use twice.
pub open spec fn distinct(sessions: Seq<Session>) -> bool {
    forall|i: int, j: int| 0 <= i < j < sessions.len() ==> sessions[i].id@ != sessions[j].id@
}

/// The place of an identifier is where it first occurs.
proof fn index_is_first(sessions: Seq<Session>, id: Seq<char>)
    ensures
        0 <= session_index(sessions, id) <= sessions.len(),
        session_index(sessions, id) < sessions.len() ==> sessions[session_index(
            sessions,
            id,
        )].id@ == id,
        forall|i: int| 0 <= i < session_index(sessions, id) ==> sessions[i].id@ != id,
    decreases sessions.len(),
{
    if sessions.len() > 0 && sessions[0].id@ != id {
        index_is_first(sessions.drop_first(), id);
        assert forall|i: int| 0 <= i < session_index(sessions, id) implies sessions[i].id@ != id by {
            if i > 0 {
                assert(sessions[i] == sessions.drop_first()[i - 1]);
            }
        }
    }
}

/// A session that was hidden or ended is not there any more.
pub proof fn a_session_is_closed_once(sessions: Seq<Session>, id: Seq<char>)
    requires
        distinct(sessions),
        session_index(sessions, id) < sessions.len(),
    ensures
        ({
            let rest = sessions.remove(session_index(sessions, id));
            &&& distinct(rest)
            &&& session_index(rest, id) == rest.len()
        }),
{
    let at = session_index(sessions, id);
    let rest = sessions.remove(at);
    index_is_first(sessions, id);
    index_is_first(rest, id);
    let again = session_index(rest, id);
    if again < rest.len() {
        let i = if again < at {
            again
        } else {
            again + 1
        };
        assert(rest[again] == sessions[i]);
        assert(sessions[i].id@ == sessions[at].id@);
    }
}

/// `view` shows a session.
pub open spec fn shows(view: SessionView, id: Seq<char>, target: bool, state: Seq<char>) -> bool {
    &&& view.id@ == id
    &&& view.target_available == target
    &&& view.paste_mode@ == (if target {
        "copy-paste"@
    } else {
        "copy-only"@
    })
    &&& view.expires_in_ms == SESSION_TTL
    &&& view.state@ == state
}

fn view(id: String, target_available: bool, state: &'static str) -> (view: SessionView)
    ensures
        shows(view, id@, target_available, state@),
        view.id == id,
{
    SessionView {
        id,
        target_available,
        paste_mode: if target_available {
            "copy-paste"
        } else {
            "copy-only"
        },
        expires_in_ms: SESSION_TTL,
        state,
    }
}

/// A hexadecimal number other than a bare zero, as windows are addressed.
pub open spec fn window_address(s: Seq<char>) -> bool {
    &&& s.len() > 2
    &&& s[0] == '0' && s[1] == 'x'
    &&& forall|i: int| 2 <= i < s.len() ==> classification::hex_digit(#[trigger] s[i])
    &&& s != "0x0"@
}

/// Whether a text is the address of a window.
pub fn valid_window_address(address: &str) -> (valid: bool)
    ensures
        valid == window_address(address@),
{
    let chars = text::chars_of(address);
    if chars.len() <= 2 || chars[0] != '0' || chars[1] != 'x' {
        return false;
    }
    for i in 2..chars.len()
        invariant
            chars@ == address@,
            forall|j: int| 2 <= j < i ==> classification::hex_digit(#[trigger] chars@[j]),
    {
        let c: char = chars[i];
        if !(('0' <= c && c <= '9') || ('a' <= c && c <= 'f') || ('A' <= c && c <= 'F')) {
            assert(!classification::hex_digit(chars@[i as int]));
            return false;
        }
    }
    !text::same(address, "0x0")
}

/// The window that the compositor says is active, where it has an address.
pub fn active_target(address: &str, class: &str) -> (target: Option<Target>)
    ensures
        match target {
            Some(target) => window_address(text::trimmed(address@)) && target.address@
                == text::trimmed(address@) && target.class@ == class@,
            None => !window_address(text::trimmed(address@)),
        },
{
    let address = text::trim(address);
    if valid_window_address(address.as_str()) {
        Some(Target { address, class: class.to_owned() })
    } else {
        None
    }
}

/// One of these, up to ASCII case, is a terminal.
pub open spec fn terminal(class: Seq<char>) -> bool {
    ||| text::same_ignoring_case(class, "com.mitchellh.ghostty"@)
    ||| text::same_ignoring_case(class, "ghostty"@)
    ||| text::same_ignoring_case(class, "alacritty"@)
    ||| text::same_ignoring_case(class, "kitty"@)
    ||| text::same_ignoring_case(class, "foot"@)
    ||| text::same_ignoring_case(class, "footclient"@)
    ||| text::same_ignoring_case(class, "org.wezfurlong.wezterm"@)
    ||| text::same_ignoring_case(class, "org.gnome.terminal"@)
    ||| text::same_ignoring_case(class, "org.gnome.console"@)
    ||| text::same_ignoring_case(class, "org.kde.konsole"@)
    ||| text::same_ignoring_case(class, "konsole"@)
    ||| text::same_ignoring_case(class, "ptyxis"@)
}

fn is_class(class: &[char], name: &str) -> (result: bool)
    ensures
        result == text::same_ignoring_case(class@, name@),
{
    text::eq_ignore_ascii_case(class, text::chars_of(name).as_slice())
}

/// Whether a window is a terminal, which has its own shortcut for pasting.
pub fn is_terminal(class: &str) -> (result: bool)
    ensures
        result == terminal(class@),
{
    let chars = text::chars_of(class);
    let c = chars.as_slice();
    is_class(c, "com.mitchellh.ghostty") || is_class(c, "ghostty") || is_class(c, "alacritty")
        || is_class(c, "kitty") || is_class(c, "foot") || is_class(c, "footclient") || is_class(
        c,
        "org.wezfurlong.wezterm",
    ) || is_class(c, "org.gnome.terminal") || is_class(c, "org.gnome.console") || is_class(
        c,
        "org.kde.konsole",
    ) || is_class(c, "konsole") || is_class(c, "ptyxis")
}

/// The commands that focus a window and paste into it, in the compositor's two
/// languages.
pub struct PasteCommands {
    pub selector: String,
    pub lua_focus: String,
    pub lua_shortcut: String,
    pub legacy_shortcut: String,
}

/// The keys that are held for pasting into a window.
pub open spec fn modifiers_of(class: Seq<char>) -> Seq<char> {
    if terminal(class) {
        "CTRL SHIFT"@
    } else {
        "CTRL"@
    }
}

/// The commands for pasting into a window.
pub fn paste_commands(target: &Target) -> (commands: PasteCommands)
    ensures
        ({
            let selector = "address:"@ + target.address@;
            let modifiers = modifiers_of(target.class@);
            &&& commands.selector@ == selector
            &&& commands.lua_focus@ == "hl.dsp.focus({ window = '"@ + selector + "' })"@
            &&& commands.lua_shortcut@ == "hl.dsp.send_shortcut({ mods = '"@ + modifiers
                + "', key = 'V', window = '"@ + selector + "' })"@
            &&& commands.legacy_shortcut@ == modifiers + ",V,"@ + selector
        }),
{
    let selector = text::join("address:", target.address.as_str());
    let modifiers = if is_terminal(target.class.as_str()) {
        "CTRL SHIFT"
    } else {
        "CTRL"
    };
    let mut lua_focus = text::join("hl.dsp.focus({ window = '", selector.as_str());
    lua_focus.append("' })");
    let mut lua_shortcut = text::join("hl.dsp.send_shortcut({ mods = '", modifiers);
    lua_shortcut.append("', key = 'V', window = '");
    lua_shortcut.append(selector.as_str());
    lua_shortcut.append("' })");
    let mut legacy_shortcut = text::join(modifiers, ",V,");
    legacy_shortcut.append(selector.as_str());
    PasteCommands { selector, lua_focus, lua_shortcut, legacy_shortcut }
}

/// Whether the compositor says that it did what it was asked.
pub fn dispatch_succeeded(success: bool, stdout: &[u8]) -> (result: bool)
    ensures
        result == (success && text::trimmed(classification::lossy_text(stdout@)) == "ok"@),
{
    let answer = classification::lossy(stdout);
    success && dispatch_answered(answer.as_str())
}

/// Whether an answer of the compositor says that it did what it was asked.
pub fn dispatch_answered(answer: &str) -> (result: bool)
    ensures
        result == (text::trimmed(answer@) == "ok"@),
{
    text::same(text::trim(answer).as_str(), "ok")
}

/// The end of a session that begins now.
pub open spec fn expiry(now: u64) -> u64 {
    if now <= u64::MAX - SESSION_TTL {
        (now + SESSION_TTL) as u64
    } else {
        u64::MAX
    }
}

/// The session is not armed; the others are as before.
pub open spec fn disarms(before: Seq<Session>, after: Seq<Session>, id: Seq<char>) -> bool {
    let at = session_index(before, id);
    after == if at == before.len() {
        before
    } else {
        before.update(at, Session { paste_pending: false, ..before[at] })
    }
}

/// No session with this identifier is armed.
pub open spec fn unarmed(sessions: Seq<Session>, id: Seq<char>) -> bool {
    forall|i: int|
        0 <= i < sessions.len() && (#[trigger] sessions[i]).id@ == id ==> !sessions[i].paste_pending
}

/// A session that was disarmed is not armed, and hiding it pastes nothing.
pub proof fn disarmed_sessions_paste_nothing(
    before: Seq<Session>,
    after: Seq<Session>,
    id: Seq<char>,
)
    requires
        distinct(before),
        disarms(before, after, id),
    ensures
        distinct(after),
        unarmed(after, id),
        forall|rest: Seq<Session>, now: u64, hidden: Hidden|
            hides(after, rest, id, now, Ok(hidden)) ==> hidden.paste is None,
{
    index_is_first(before, id);
    index_is_first(after, id);
    let at = session_index(before, id);
    assert forall|i: int, j: int| 0 <= i < j < after.len() implies after[i].id@ != after[j].id@ by {
        assert(before[i].id@ != before[j].id@);
    }
    assert forall|i: int|
        0 <= i < after.len() && (#[trigger] after[i]).id@ == id implies !after[i].paste_pending by {
        assert(before[i].id@ == id);
        if at < i {
            assert(before[at].id@ != before[i].id@);
        }
        assert(i == at);
    }
}

/// What comes of looking whether a session is open, to paste something else: it
/// is not armed any more.
pub open spec fn checks(
    before: Seq<Session>,
    after: Seq<Session>,
    id: Seq<char>,
    now: u64,
    available: Result<bool, &'static str>,
) -> bool {
    let at = session_index(before, id);
    if at == before.len() {
        after == before && (available matches Err(message)
            && message@ == "Paste session is unknown or expired"@)
    } else if before[at].expires <= now {
        after == before.remove(at) && (
        available matches Err(message) && message@ == "Paste session expired"@)
    } else {
        disarms(before, after, id) && available == Ok::<bool, &'static str>(
            before[at].target is Some,
        )
    }
}

/// What comes of arming a session.
pub open spec fn arms(
    before: Seq<Session>,
    after: Seq<Session>,
    id: Seq<char>,
    now: u64,
    available: Result<bool, &'static str>,
) -> bool {
    let at = session_index(before, id);
    if at == before.len() {
        after == before && (available matches Err(message)
            && message@ == "Paste session is unknown or expired"@)
    } else if before[at].expires <= now {
        after == before.remove(at) && (
        available matches Err(message) && message@ == "Paste session expired"@)
    } else {
        after == before.update(
            at,
            Session { paste_pending: true, ..before[at] },
        ) && available == Ok::<bool, &'static str>(
            before[at].target is Some,
        )
    }
}

/// What comes of hiding a session.
pub open spec fn hides(
    before: Seq<Session>,
    after: Seq<Session>,
    id: Seq<char>,
    now: u64,
    hidden: Result<Hidden, &'static str>,
) -> bool {
    let at = session_index(before, id);
    if at == before.len() {
        after == before && (hidden matches Err(message)
            && message@ == "Paste session is unknown or expired"@)
    } else {
        let session = before[at];
        &&& after == before.remove(at)
        &&& if session.expires <= now {
            hidden matches Err(message) && message@ == "Paste session expired"@
        } else {
            &&& hidden matches Ok(hidden)
            &&& shows(hidden.view, id, session.target is Some, "hidden"@)
            &&& hidden.paste == if session.paste_pending {
                session.target
            } else {
                None
            }
        }
    }
}

/// What comes of ending a session.
pub open spec fn ends(
    before: Seq<Session>,
    after: Seq<Session>,
    id: Seq<char>,
    shown: SessionView,
) -> bool {
    let at = session_index(before, id);
    let open = at < before.len();
    &&& after == if open {
        before.remove(at)
    } else {
        before
    }
    &&& shows(
        shown,
        id,
        open && before[at].target is Some,
        "ended"@,
    )
}

/// `after` differs from `before` in a session that was begun now; sessions that
/// have expired are gone.
pub open spec fn begins(
    before: SessionManager,
    after: SessionManager,
    id: Seq<char>,
    target: Option<Target>,
    now: u64,
) -> bool {
    let sessions = after.sessions@;
    &&& sessions.len() > 0
    &&& sessions.drop_last() == before.others(now, id)
    &&& sessions.last().id@ == id
    &&& sessions.last().target == target
    &&& sessions.last().expires == expiry(now)
    &&& !sessions.last().paste_pending
}

/// A paste goes only to the window of a session that was armed, once: the
/// session is gone afterwards.
pub proof fn armed_sessions_paste_once(
    before: Seq<Session>,
    after: Seq<Session>,
    id: Seq<char>,
    now: u64,
    hidden: Hidden,
)
    requires
        distinct(before),
        hides(before, after, id, now, Ok(hidden)),
        hidden.paste is Some,
    ensures
        ({
            let session = before[session_index(before, id)];
            session.paste_pending && session.expires > now && session.target == hidden.paste
        }),
        session_index(after, id) == after.len(),
{
    index_is_first(before, id);
    a_session_is_closed_once(before, id);
}

impl SessionManager {
    pub fn new() -> (manager: Self)
        ensures
            manager.sessions@.len() == 0,
    {
        SessionManager { sessions: Vec::new() }
    }

    fn find(&self, id: &str) -> (at: usize)
        ensures
            at == session_index(self.sessions@, id@),
            at <= self.sessions@.len(),
            at < self.sessions@.len() ==> self.sessions@[at as int].id@ == id@,
    {
        let mut at: usize = 0;
        assert(self.sessions@.skip(0) =~= self.sessions@);
        while at < self.sessions.len()
            invariant
                at <= self.sessions@.len(),
                session_index(self.sessions@, id@) == at + session_index(
                    self.sessions@.skip(at as int),
                    id@,
                ),
            decreases self.sessions@.len() - at,
        {
            if text::same(self.sessions[at].id.as_str(), id) {
                return at;
            }
            assert(self.sessions@.skip(at as int).drop_first() =~= self.sessions@.skip(at + 1));
            at = at + 1;
        }
        at
    }

    /// The sessions that have not expired and have another identifier.
    pub open spec fn others(self, now: u64, id: Seq<char>) -> Seq<Session> {
        self.sessions@.filter(|s: Session| s.expires > now && s.id@ != id)
    }

    /// Begins a session under an identifier that is given.
    pub fn begin_as(&mut self, id: String, target: Option<Target>, now: u64) -> (shown: SessionView)
        ensures
            shows(shown, id@, target is Some, "active"@),
            begins(*old(self), *final(self), id@, target, now),
            distinct(old(self).sessions@) ==> distinct(final(self).sessions@),
    {
        let ghost keep = |s: Session| s.expires > now && s.id@ != id@;
        let mut sessions: Vec<Session> = Vec::new();
        std::mem::swap(&mut sessions, &mut self.sessions);
        let ghost all = sessions@;
        let mut kept: Vec<Session> = Vec::new();
        let ghost mut done: Seq<Session> = Seq::empty();
        proof {
            reveal(Seq::filter);
        }
        while sessions.len() > 0
            invariant
                all == done + sessions@,
                kept@ == done.filter(keep),
                keep == (|s: Session| s.expires > now && s.id@ != id@),
                forall|i: int| 0 <= i < kept@.len() ==> (#[trigger] kept@[i]).id@ != id@,
                forall|i: int| 0 <= i < kept@.len() ==> done.contains(#[trigger] kept@[i]),
                distinct(all) ==> distinct(kept@),
            decreases sessions@.len(),
        {
            let ghost rest = sessions@;
            let ghost before = done;
            let session = sessions.remove(0);
            proof {
                reveal(Seq::filter);
                assert(done.push(session).drop_last() =~= done);
                assert(done + rest =~= done.push(session) + sessions@);
                done = done.push(session);
                assert(done[before.len() as int] == session);
                assert forall|i: int| 0 <= i < kept@.len() implies done.contains(
                    #[trigger] kept@[i],
                ) && (distinct(all) ==> kept@[i].id@ != session.id@) by {
                    let k = choose|k: int| 0 <= k < before.len() && before[k] == kept@[i];
                    assert(done[k] == kept@[i]);
                    assert(all[k] == kept@[i] && all[before.len() as int] == session);
                }
            }
            if session.expires > now && !text::same(session.id.as_str(), id.as_str()) {
                kept.push(session);
            }
        }
        assert(done =~= all);
        let ghost others = kept@;
        let available: bool = target.is_some();
        let expires: u64 = if now <= u64::MAX - SESSION_TTL {
            now + SESSION_TTL
        } else {
            u64::MAX
        };
        let shown = view(id.clone(), available, "active");
        kept.push(Session { id, target, expires, paste_pending: false });
        assert(kept@.drop_last() =~= others);
        self.sessions = kept;
        shown
    }

    /// Begins a session for the window that is active. Sessions that have expired
    /// are forgotten.
    pub fn begin(&mut self, target: Option<Target>, now: u64) -> (shown: SessionView)
        ensures
            shows(shown, shown.id@, target is Some, "active"@),
            text::begins(shown.id@, "session-"@),
            begins(*old(self), *final(self), shown.id@, target, now),
            distinct(old(self).sessions@) ==> distinct(final(self).sessions@),
    {
        let fresh = fresh_id();
        let id = text::join("session-", fresh.as_str());
        assert(id@.take("session-"@.len() as int) =~= "session-"@);
        self.begin_as(id, target, now)
    }

    /// Disarms a session: what it was armed for is not what is wanted, or not
    /// what is on the clipboard.
    pub fn disarm(&mut self, id: &str)
        ensures
            disarms(old(self).sessions@, final(self).sessions@, id@),
            distinct(old(self).sessions@) ==> distinct(final(self).sessions@),
    {
        let ghost before = self.sessions@;
        let at = self.find(id);
        if at < self.sessions.len() {
            let mut session = self.sessions.remove(at);
            session.paste_pending = false;
            self.sessions.insert(at, session);
            assert(self.sessions@ =~= before.update(at as int, session));
        }
        proof {
            if distinct(before) {
                disarmed_sessions_paste_nothing(before, self.sessions@, id@);
            }
        }
    }

    /// Whether the session is open, and has a window to paste into. One that is
    /// open is disarmed until what is to be pasted has been published; one that
    /// has expired is forgotten.
    pub fn check(&mut self, id: &str, now: u64) -> (available: Result<bool, &'static str>)
        ensures
            checks(old(self).sessions@, final(self).sessions@, id@, now, available),
            distinct(old(self).sessions@) ==> distinct(final(self).sessions@),
    {
        let at = self.find(id);
        if at == self.sessions.len() {
            return Err("Paste session is unknown or expired");
        }
        if self.sessions[at].expires <= now {
            proof {
                if distinct(self.sessions@) {
                    a_session_is_closed_once(self.sessions@, id@);
                }
            }
            self.sessions.remove(at);
            return Err("Paste session expired");
        }
        let available: bool = self.sessions[at].target.is_some();
        self.disarm(id);
        Ok(available)
    }

    /// Arms the session: once it is hidden, its window is pasted into. To be
    /// called when what is to be pasted has been published.
    pub fn prepare_paste(&mut self, id: &str, now: u64) -> (available: Result<bool, &'static str>)
        ensures
            arms(old(self).sessions@, final(self).sessions@, id@, now, available),
            distinct(old(self).sessions@) ==> distinct(final(self).sessions@),
    {
        let ghost before = self.sessions@;
        match self.check(id, now) {
            Ok(available) => {
                proof {
                    index_is_first(before, id@);
                    index_is_first(self.sessions@, id@);
                    let first = session_index(before, id@);
                    let again = session_index(self.sessions@, id@);
                    assert(self.sessions@[first].id@ == before[first].id@);
                    if again < first {
                        assert(self.sessions@[again].id@ == before[again].id@);
                    }
                    assert(again == first);
                }
                let at = self.find(id);
                let mut session = self.sessions.remove(at);
                session.paste_pending = true;
                self.sessions.insert(at, session);
                assert(self.sessions@ =~= before.update(at as int, session));
                Ok(available)
            },
            Err(message) => Err(message),
        }
    }

    /// Ends a session whose picker was hidden. If it was armed and has not
    /// expired, its window is to be pasted into.
    pub fn hidden(&mut self, id: &str, now: u64) -> (hidden: Result<Hidden, &'static str>)
        ensures
            hides(old(self).sessions@, final(self).sessions@, id@, now, hidden),
            distinct(old(self).sessions@) ==> distinct(final(self).sessions@),
    {
        let at = self.find(id);
        if at == self.sessions.len() {
            return Err("Paste session is unknown or expired");
        }
        proof {
            if distinct(self.sessions@) {
                a_session_is_closed_once(self.sessions@, id@);
            }
        }
        let session = self.sessions.remove(at);
        if session.expires <= now {
            return Err("Paste session expired");
        }
        let available: bool = session.target.is_some();
        let paste = if session.paste_pending {
            session.target
        } else {
            None
        };
        Ok(Hidden { view: view(id.to_owned(), available, "hidden"), paste })
    }

    /// Ends a session, whether it is there or not.
    pub fn end(&mut self, id: &str) -> (shown: SessionView)
        ensures
            ends(old(self).sessions@, final(self).sessions@, id@, shown),
            distinct(old(self).sessions@) ==> distinct(final(self).sessions@),
    {
        let at = self.find(id);
        if at == self.sessions.len() {
            return view(id.to_owned(), false, "ended");
        }
        proof {
            if distinct(self.sessions@) {
                a_session_is_closed_once(self.sessions@, id@);
            }
        }
        let session = self.sessions.remove(at);
        view(id.to_owned(), session.target.is_some(), "ended")
    }
}

} // verus!
