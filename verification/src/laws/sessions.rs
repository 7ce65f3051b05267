//! Sessions, edits and what else is handed out for a while.
use crate::editing;
use crate::editing::{EditCommit, EditManager, EditView};
use crate::editor;
use crate::editor::{EditorCall, ImageEditorCommand};
use crate::lease;
use crate::lease::{Lease, Leases, Taken};
use crate::model::EntryDetails;
use crate::session;
use crate::session::{Hidden, PasteCommands, Session, SessionManager, SessionView, Target};
use crate::text;
use vstd::prelude::*;
use vstd::string::*;
use vstd::utf8::*;

verus! {

proof fn the_first_session_is_found(sessions: Seq<Session>, id: Seq<char>)
    ensures
        0 <= session::session_index(sessions, id) <= sessions.len(),
        session::session_index(sessions, id) < sessions.len() ==> sessions[session::session_index(
            sessions,
            id,
        )].id@ == id,
        forall|i: int|
            0 <= i < session::session_index(sessions, id) ==> (#[trigger] sessions[i]).id@ != id,
    decreases sessions.len(),
{
    if sessions.len() > 0 && sessions[0].id@ != id {
        let rest = sessions.drop_first();
        the_first_session_is_found(rest, id);
        assert forall|i: int| 0 <= i < session::session_index(sessions, id) implies (
        #[trigger] sessions[i]).id@ != id by {
            if i > 0 {
                assert(rest[i - 1] == sessions[i]);
            }
        }
    }
}

/// A session that begins lasts for five minutes, is not armed, and can be pasted from
/// where a window was active; those that have expired are gone, the others stay.
pub proof fn sessions_begin_unarmed(
    before: SessionManager,
    id: String,
    target: Option<Target>,
    now: u64,
    after: SessionManager,
    shown: SessionView,
    i: int,
)
    requires
        now <= u64::MAX - 300_000,
        exists|asked: &mut SessionManager|
            *asked == before && *final(asked) == after && #[trigger] call_ensures(
                SessionManager::begin_as,
                (asked, id, target, now),
                shown,
            ),
    ensures
        after.sessions@.len() > 0,
        after.sessions@.last().id@ == id@,
        after.sessions@.last().target == target,
        after.sessions@.last().expires == now + 5 * 60 * 1000,
        !after.sessions@.last().paste_pending,
        shown.id@ == id@,
        shown.target_available <==> target is Some,
        shown.paste_mode@ == (if target is Some {
            "copy-paste"@
        } else {
            "copy-only"@
        }),
        shown.expires_in_ms == 300_000,
        shown.state@ == "active"@,
        0 <= i < before.sessions@.len() && before.sessions@[i].expires > now
            && before.sessions@[i].id@ != id@ ==> after.sessions@.contains(before.sessions@[i]),
        forall|k: int|
            0 <= k < after.sessions@.len() - 1 ==> (#[trigger] after.sessions@[k]).expires > now
                && after.sessions@[k].id@ != id@,
{
    let keep = |s: Session| s.expires > now && s.id@ != id@;
    let kept = before.sessions@.filter(keep);
    assert(after.sessions@.drop_last() == kept);
    if 0 <= i < before.sessions@.len() && keep(before.sessions@[i]) {
        before.sessions@.lemma_filter_contains(keep, i);
        let k = choose|k: int| 0 <= k < kept.len() && kept[k] == before.sessions@[i];
        assert(after.sessions@.drop_last()[k] == after.sessions@[k]);
    }
    assert forall|k: int| 0 <= k < after.sessions@.len() - 1 implies (
    #[trigger] after.sessions@[k]).expires > now && after.sessions@[k].id@ != id@ by {
        assert(after.sessions@.drop_last()[k] == after.sessions@[k]);
        before.sessions@.lemma_filter_pred(keep, k);
    }
}

/// Only a session that is open and has not expired is armed; it alone changes. What
/// is said is whether it has a window.
pub proof fn open_sessions_are_armed(
    before: SessionManager,
    id: &str,
    at: int,
    now: u64,
    after: SessionManager,
    available: Result<bool, &'static str>,
)
    requires
        0 <= at < before.sessions@.len(),
        before.sessions@[at].id@ == id@,
        forall|i: int| 0 <= i < at ==> (#[trigger] before.sessions@[i]).id@ != id@,
        exists|asked: &mut SessionManager|
            *asked == before && *final(asked) == after && #[trigger] call_ensures(
                SessionManager::prepare_paste,
                (asked, id, now),
                available,
            ),
    ensures
        available is Ok <==> before.sessions@[at].expires > now,
        available matches Ok(has_window) ==> (has_window <==> before.sessions@[at].target is Some)
            && after.sessions@.len() == before.sessions@.len() && after.sessions@[at] == (Session {
            paste_pending: true,
            ..before.sessions@[at]
        }) && forall|i: int|
            0 <= i < before.sessions@.len() && i != at ==> #[trigger] after.sessions@[i]
                == before.sessions@[i],
        available is Err ==> after.sessions@ == before.sessions@.remove(at),
{
    the_first_session_is_found(before.sessions@, id@);
    let found = session::session_index(before.sessions@, id@);
    if found < at {
        assert(before.sessions@[found].id@ != id@);
    }
}

/// Looking whether a session is open disarms it until what is to be pasted has been
/// published; one that has expired is gone.
pub proof fn looked_at_sessions_are_disarmed(
    before: SessionManager,
    id: &str,
    at: int,
    now: u64,
    after: SessionManager,
    available: Result<bool, &'static str>,
)
    requires
        0 <= at < before.sessions@.len(),
        before.sessions@[at].id@ == id@,
        forall|i: int| 0 <= i < at ==> (#[trigger] before.sessions@[i]).id@ != id@,
        exists|asked: &mut SessionManager|
            *asked == before && *final(asked) == after && #[trigger] call_ensures(
                SessionManager::check,
                (asked, id, now),
                available,
            ),
    ensures
        available is Ok <==> before.sessions@[at].expires > now,
        available matches Ok(has_window) ==> (has_window <==> before.sessions@[at].target is Some)
            && after.sessions@ == before.sessions@.update(
            at,
            Session { paste_pending: false, ..before.sessions@[at] },
        ),
        available is Err ==> after.sessions@ == before.sessions@.remove(at),
{
    the_first_session_is_found(before.sessions@, id@);
    let found = session::session_index(before.sessions@, id@);
    if found < at {
        assert(before.sessions@[found].id@ != id@);
    }
}

/// Hiding a session ends it. The window that it began with is pasted into exactly
/// where it was armed and has not expired.
pub proof fn hidden_sessions_paste_where_armed(
    before: SessionManager,
    id: &str,
    at: int,
    now: u64,
    after: SessionManager,
    hidden: Result<Hidden, &'static str>,
)
    requires
        0 <= at < before.sessions@.len(),
        before.sessions@[at].id@ == id@,
        forall|i: int| 0 <= i < at ==> (#[trigger] before.sessions@[i]).id@ != id@,
        exists|asked: &mut SessionManager|
            *asked == before && *final(asked) == after && #[trigger] call_ensures(
                SessionManager::hidden,
                (asked, id, now),
                hidden,
            ),
    ensures
        after.sessions@ == before.sessions@.remove(at),
        hidden is Ok <==> before.sessions@[at].expires > now,
        hidden matches Ok(hidden) ==> {
            &&& before.sessions@[at].paste_pending ==> hidden.paste == before.sessions@[at].target
            &&& !before.sessions@[at].paste_pending ==> hidden.paste is None
            &&& hidden.view.id@ == id@
            &&& hidden.view.state@ == "hidden"@
            &&& hidden.view.target_available <==> before.sessions@[at].target is Some
        },
{
    the_first_session_is_found(before.sessions@, id@);
    let found = session::session_index(before.sessions@, id@);
    if found < at {
        assert(before.sessions@[found].id@ != id@);
    }
}

/// A session that is not there can be neither armed, nor looked at, nor hidden, and
/// nothing changes; ending one that is not there is no failure.
pub proof fn unknown_sessions_are_refused(
    before: SessionManager,
    id: &str,
    now: u64,
    armed: SessionManager,
    available: Result<bool, &'static str>,
    closed: SessionManager,
    hidden: Result<Hidden, &'static str>,
    ended: SessionManager,
    shown: SessionView,
)
    requires
        forall|i: int| 0 <= i < before.sessions@.len() ==> (#[trigger] before.sessions@[i]).id@ != id@,
        exists|asked: &mut SessionManager|
            *asked == before && *final(asked) == armed && #[trigger] call_ensures(
                SessionManager::prepare_paste,
                (asked, id, now),
                available,
            ),
        exists|asked: &mut SessionManager|
            *asked == before && *final(asked) == closed && #[trigger] call_ensures(
                SessionManager::hidden,
                (asked, id, now),
                hidden,
            ),
        exists|asked: &mut SessionManager|
            *asked == before && *final(asked) == ended && #[trigger] call_ensures(
                SessionManager::end,
                (asked, id),
                shown,
            ),
    ensures
        available is Err,
        hidden is Err,
        armed.sessions@ == before.sessions@,
        closed.sessions@ == before.sessions@,
        ended.sessions@ == before.sessions@,
        shown.state@ == "ended"@,
        shown.id@ == id@,
        !shown.target_available,
{
    the_first_session_is_found(before.sessions@, id@);
    let found = session::session_index(before.sessions@, id@);
    if found < before.sessions@.len() {
        assert(before.sessions@[found].id@ != id@);
    }
}

/// Ending a session takes it out, whether or not it was armed.
pub proof fn ended_sessions_are_gone(
    before: SessionManager,
    id: &str,
    at: int,
    after: SessionManager,
    shown: SessionView,
)
    requires
        0 <= at < before.sessions@.len(),
        before.sessions@[at].id@ == id@,
        forall|i: int| 0 <= i < at ==> (#[trigger] before.sessions@[i]).id@ != id@,
        exists|asked: &mut SessionManager|
            *asked == before && *final(asked) == after && #[trigger] call_ensures(
                SessionManager::end,
                (asked, id),
                shown,
            ),
    ensures
        after.sessions@ == before.sessions@.remove(at),
        shown.state@ == "ended"@,
        shown.target_available <==> before.sessions@[at].target is Some,
{
    the_first_session_is_found(before.sessions@, id@);
    let found = session::session_index(before.sessions@, id@);
    if found < at {
        assert(before.sessions@[found].id@ != id@);
    }
}

/// Disarming keeps a session but for its being armed.
pub proof fn disarmed_sessions_stay(
    before: SessionManager,
    id: &str,
    at: int,
    after: SessionManager,
)
    requires
        0 <= at < before.sessions@.len(),
        before.sessions@[at].id@ == id@,
        forall|i: int| 0 <= i < at ==> (#[trigger] before.sessions@[i]).id@ != id@,
        exists|asked: &mut SessionManager|
            *asked == before && *final(asked) == after && #[trigger] call_ensures(
                SessionManager::disarm,
                (asked, id),
                (),
            ),
    ensures
        after.sessions@ == before.sessions@.update(
            at,
            Session { paste_pending: false, ..before.sessions@[at] },
        ),
{
    the_first_session_is_found(before.sessions@, id@);
    let found = session::session_index(before.sessions@, id@);
    if found < at {
        assert(before.sessions@[found].id@ != id@);
    }
}

/// A window is addressed by `0x` and hexadecimal digits, not by zero alone.
pub proof fn windows_are_addressed_in_hexadecimal(address: &str, valid: bool)
    requires
        call_ensures(session::valid_window_address, (address,), valid),
    ensures
        valid <==> address@.len() >= 3 && address@[0] == '0' && address@[1] == 'x' && !(
        address@.len() == 3 && address@[2] == '0') && forall|i: int|
            2 <= i < address@.len() ==> ('0' <= #[trigger] address@[i] <= '9') || ('a' <= address@[i]
                <= 'f') || ('A' <= address@[i] <= 'F'),
{
    reveal_strlit("0x0");
    if address@.len() == 3 && address@[0] == '0' && address@[1] == 'x' && address@[2] == '0' {
        assert(address@ =~= "0x0"@);
    }
}

/// The active window is the target under its address without white space around it,
/// and with its own class.
pub proof fn the_active_window_is_the_target(
    address: &str,
    class: &str,
    plain: &str,
    valid: bool,
    target: Option<Target>,
)
    requires
        call_ensures(session::active_target, (address, class), target),
        plain@ == text::trimmed(address@),
        call_ensures(session::valid_window_address, (plain,), valid),
    ensures
        target is Some <==> valid,
        target matches Some(target) ==> target.address@ == plain@ && target.class@ == class@,
{
}

/// A terminal is pasted into with its own keys, any other window with the usual ones,
/// and each command names the window that was chosen.
pub proof fn pastes_go_to_the_window(
    target: Target,
    class: &str,
    terminal: bool,
    commands: PasteCommands,
)
    requires
        class@ == target.class@,
        call_ensures(session::is_terminal, (class,), terminal),
        call_ensures(session::paste_commands, (&target,), commands),
    ensures
        commands.selector@ == "address:"@ + target.address@,
        commands.lua_focus@ == "hl.dsp.focus({ window = '"@ + commands.selector@ + "' })"@,
        terminal ==> commands.legacy_shortcut@ == "CTRL SHIFT"@ + ",V,"@ + commands.selector@
            && commands.lua_shortcut@ == "hl.dsp.send_shortcut({ mods = '"@ + "CTRL SHIFT"@
            + "', key = 'V', window = '"@ + commands.selector@ + "' })"@,
        !terminal ==> commands.legacy_shortcut@ == "CTRL"@ + ",V,"@ + commands.selector@
            && commands.lua_shortcut@ == "hl.dsp.send_shortcut({ mods = '"@ + "CTRL"@
            + "', key = 'V', window = '"@ + commands.selector@ + "' })"@,
        class@ == "com.mitchellh.ghostty"@ || class@ == "ghostty"@ || class@ == "alacritty"@
            || class@ == "kitty"@ || class@ == "foot"@ || class@ == "footclient"@ || class@
            == "org.wezfurlong.wezterm"@ || class@ == "org.gnome.terminal"@ || class@
            == "org.gnome.console"@ || class@ == "org.kde.konsole"@ || class@ == "konsole"@
            || class@ == "ptyxis"@ ==> terminal,
        class@.len() == 0 || class@.len() > 22 ==> !terminal,
        class@.len() > 0 && text::ascii_lower(class@[0]) != 'c' && text::ascii_lower(class@[0]) != 'g'
            && text::ascii_lower(class@[0]) != 'a' && text::ascii_lower(class@[0]) != 'k'
            && text::ascii_lower(class@[0]) != 'f' && text::ascii_lower(class@[0]) != 'o'
            && text::ascii_lower(class@[0]) != 'p' ==> !terminal,
{
    reveal_strlit("com.mitchellh.ghostty");
    reveal_strlit("ghostty");
    reveal_strlit("alacritty");
    reveal_strlit("kitty");
    reveal_strlit("foot");
    reveal_strlit("footclient");
    reveal_strlit("org.wezfurlong.wezterm");
    reveal_strlit("org.gnome.terminal");
    reveal_strlit("org.gnome.console");
    reveal_strlit("org.kde.konsole");
    reveal_strlit("konsole");
    reveal_strlit("ptyxis");
}

/// The compositor did what it was asked exactly where it says nothing but `ok`.
pub proof fn only_ok_is_success(answer: &str, done: bool)
    requires
        call_ensures(session::dispatch_answered, (answer,), done),
    ensures
        done <==> text::trimmed(answer@) == "ok"@,
{
}

/// Text, links, HTML, JSON and colours can be edited; files, images and binary
/// content cannot. What is shown only in part cannot, nor what is no text, nor what is
/// larger than 256 KiB; anything else can, and then all of its text is.
pub proof fn whole_texts_can_be_edited(
    details: EntryDetails,
    suited: bool,
    value: Result<String, &'static str>,
)
    requires
        call_ensures(editing::editable, (details.entry.kind,), suited),
        call_ensures(editing::editable_value, (&details,), value),
    ensures
        suited <==> !(details.entry.kind is Image || details.entry.kind is Files
            || details.entry.kind is Binary),
        value is Ok <==> suited && !details.preview_truncated && details.text is Some
            && encode_utf8(details.text->0@).len() <= 262_144,
        value matches Ok(text) ==> text@ == details.text->0@,
{
}

proof fn the_first_lease_is_found<T>(list: Seq<Lease<T>>, id: Seq<char>)
    ensures
        0 <= lease::place(list, id) <= list.len(),
        lease::place(list, id) < list.len() ==> list[lease::place(list, id)].id@ == id,
        forall|i: int| 0 <= i < lease::place(list, id) ==> (#[trigger] list[i]).id@ != id,
    decreases list.len(),
{
    if list.len() > 0 && list[0].id@ != id {
        let rest = list.drop_first();
        the_first_lease_is_found(rest, id);
        assert forall|i: int| 0 <= i < lease::place(list, id) implies (
        #[trigger] list[i]).id@ != id by {
            if i > 0 {
                assert(rest[i - 1] == list[i]);
            }
        }
    }
}

/// What is handed out can be taken back once, with what it is, until the moment that
/// was said; what was handed out under other identifiers stays.
pub proof fn what_is_handed_out_is_taken_back<T>(
    before: Leases<T>,
    id: String,
    value: T,
    expires: u64,
    issued: Leases<T>,
    same: &str,
    now: u64,
    after: Leases<T>,
    taken: Taken<T>,
)
    requires
        before.wf(),
        exists|asked: &mut Leases<T>|
            *asked == before && *final(asked) == issued && #[trigger] call_ensures(
                Leases::<T>::issue,
                (asked, id, value, expires),
                (),
            ),
        same@ == id@,
        exists|asked: &mut Leases<T>|
            *asked == issued && *final(asked) == after && #[trigger] call_ensures(
                Leases::<T>::take,
                (asked, same, now),
                taken,
            ),
    ensures
        expires > now ==> taken == Taken::Granted(value),
        expires <= now ==> taken is Expired,
        forall|i: int|
            0 <= i < before.list@.len() && (#[trigger] before.list@[i]).id@ != id@
                ==> after.list@.contains(before.list@[i]),
        forall|i: int| 0 <= i < after.list@.len() ==> (#[trigger] after.list@[i]).id@ != id@,
{
    the_first_lease_is_found(before.list@, id@);
    the_first_lease_is_found(issued.list@, id@);
    the_first_lease_is_found(after.list@, id@);
    let at = lease::place(before.list@, id@);
    let rest = before.without(id@);
    assert(issued.list@.last() == (Lease { id, expires, value }));
    assert(after.list@ =~= rest);
    assert forall|i: int|
        0 <= i < before.list@.len() && (#[trigger] before.list@[i]).id@
            != id@ implies after.list@.contains(before.list@[i]) by {
        if at < before.list@.len() && i > at {
            assert(rest[i - 1] == before.list@[i]);
        } else {
            assert(rest[i] == before.list@[i]);
        }
    }
}

/// What was never handed out cannot be taken back.
pub proof fn nothing_else_is_taken_back<T>(
    before: Leases<T>,
    id: &str,
    now: u64,
    after: Leases<T>,
    taken: Taken<T>,
)
    requires
        forall|i: int| 0 <= i < before.list@.len() ==> (#[trigger] before.list@[i]).id@ != id@,
        exists|asked: &mut Leases<T>|
            *asked == before && *final(asked) == after && #[trigger] call_ensures(
                Leases::<T>::take,
                (asked, id, now),
                taken,
            ),
    ensures
        taken is Unknown,
        after.list@ == before.list@,
{
    the_first_lease_is_found(before.list@, id@);
    let found = lease::place(before.list@, id@);
    if found < before.list@.len() {
        assert(before.list@[found].id@ != id@);
    }
}

proof fn what_lasts_is_kept<T>(list: Seq<Lease<T>>, now: u64, i: int)
    ensures
        0 <= i < list.len() && list[i].expires > now ==> lease::lasting(list, now).contains(list[i]),
        forall|k: int|
            0 <= k < lease::lasting(list, now).len() ==> (#[trigger] lease::lasting(
                list,
                now,
            )[k]).expires > now,
    decreases list.len(),
{
    if list.len() > 0 {
        let front = list.drop_last();
        what_lasts_is_kept(front, now, i);
        let kept = lease::lasting(front, now);
        let all = lease::lasting(list, now);
        if 0 <= i < front.len() && list[i].expires > now {
            assert(front[i] == list[i]);
            let k = choose|k: int| 0 <= k < kept.len() && kept[k] == list[i];
            assert(all[k] == kept[k]);
        } else if i == list.len() - 1 && list[i].expires > now {
            assert(all[all.len() - 1] == list[i]);
        }
        assert forall|k: int| 0 <= k < all.len() implies (#[trigger] all[k]).expires > now by {
            if k < kept.len() {
                assert(all[k] == kept[k]);
            }
        }
    }
}

/// What has expired is forgotten, and nothing else.
pub proof fn only_what_has_expired_is_forgotten<T>(
    before: Leases<T>,
    now: u64,
    after: Leases<T>,
    i: int,
)
    requires
        exists|asked: &mut Leases<T>|
            *asked == before && *final(asked) == after && #[trigger] call_ensures(
                Leases::<T>::expire,
                (asked, now),
                (),
            ),
    ensures
        0 <= i < before.list@.len() && before.list@[i].expires > now ==> after.list@.contains(
            before.list@[i],
        ),
        forall|k: int| 0 <= k < after.list@.len() ==> (#[trigger] after.list@[k]).expires > now,
{
    what_lasts_is_kept(before.list@, now, i);
}

/// An edit that was opened shows the text of the entry, and can be committed for a
/// minute, to the entry and the state that were opened, with at most 256 KiB of text.
pub proof fn edits_are_open_for_a_minute(
    before: EditManager,
    id: String,
    details: EntryDetails,
    now: u64,
    opened: EditManager,
    view: Result<EditView, &'static str>,
    same: &str,
    value: String,
    later: u64,
    after: EditManager,
    commit: Result<EditCommit, &'static str>,
)
    requires
        now <= u64::MAX - 60_000,
        exists|asked: &mut EditManager|
            *asked == before && *final(asked) == opened && #[trigger] call_ensures(
                EditManager::begin_as,
                (asked, id, &details, now),
                view,
            ),
        view is Ok,
        same@ == id@,
        exists|asked: &mut EditManager|
            *asked == opened && *final(asked) == after && #[trigger] call_ensures(
                EditManager::commit,
                (asked, same, value, later),
                commit,
            ),
    ensures
        view->Ok_0.id@ == id@,
        view->Ok_0.entry_id@ == details.entry.id@,
        view->Ok_0.revision == details.entry.revision,
        view->Ok_0.mime@ == details.entry.mime@,
        details.text matches Some(text) && view->Ok_0.value@ == text@,
        view->Ok_0.max_bytes == 262_144,
        view->Ok_0.expires_in_ms == 60_000,
        commit is Ok <==> later < now + 60_000 && encode_utf8(value@).len() <= 262_144,
        commit matches Ok(made) ==> made.entry_id@ == details.entry.id@ && made.revision
            == details.entry.revision && made.mime@ == details.entry.mime@ && made.value@ == value@,
        forall|i: int|
            0 <= i < after.leases.list@.len() ==> (#[trigger] after.leases.list@[i]).id@ != id@,
{
    the_first_lease_is_found(opened.leases.list@, id@);
    the_first_lease_is_found(after.leases.list@, id@);
}

/// A command names a program and holds both placeholders among its arguments.
pub proof fn commands_hand_over_both_paths(
    argv: Vec<String>,
    command: Result<ImageEditorCommand, String>,
)
    requires
        call_ensures(ImageEditorCommand::new, (argv,), command),
    ensures
        command is Ok <==> argv@.len() > 0 && argv@[0]@.len() > 0 && (exists|i: int|
            1 <= i < argv@.len() && (#[trigger] argv@[i])@ == "{input}"@) && (exists|i: int|
            1 <= i < argv@.len() && (#[trigger] argv@[i])@ == "{output}"@),
        command matches Ok(command) ==> command.argv@ == argv@,
{
    let words = text::contents(argv@);
    assert(words.len() == argv@.len());
    assert forall|i: int| 0 <= i < argv@.len() implies words[i] == #[trigger] argv@[i]@ by {}
    if exists|i: int| 1 <= i < argv@.len() && (#[trigger] argv@[i])@ == "{input}"@ {
        let i = choose|i: int| 1 <= i < argv@.len() && (#[trigger] argv@[i])@ == "{input}"@;
        assert(words[i] == "{input}"@);
    }
    if exists|i: int| 1 <= i < argv@.len() && (#[trigger] argv@[i])@ == "{output}"@ {
        let i = choose|i: int| 1 <= i < argv@.len() && (#[trigger] argv@[i])@ == "{output}"@;
        assert(words[i] == "{output}"@);
    }
    if editor::has_argument(words, "{input}"@) {
        let i = choose|i: int| 1 <= i < words.len() && words[i] == "{input}"@;
        assert(argv@[i]@ == "{input}"@);
    }
    if editor::has_argument(words, "{output}"@) {
        let i = choose|i: int| 1 <= i < words.len() && words[i] == "{output}"@;
        assert(argv@[i]@ == "{output}"@);
    }
}

/// The editor is run as it was configured, with each path in the place of its
/// placeholder, and every other argument as it is.
pub proof fn paths_take_the_places_of_placeholders(
    command: ImageEditorCommand,
    input: &str,
    output: &str,
    call: EditorCall,
    i: int,
)
    requires
        command.wf(),
        call_ensures(ImageEditorCommand::command, (&command, input, output), call),
        0 <= i < call.arguments@.len(),
    ensures
        call.program@ == command.argv@[0]@,
        call.arguments@.len() == command.argv@.len() - 1,
        command.argv@[i + 1]@ == "{input}"@ ==> call.arguments@[i]@ == input@,
        command.argv@[i + 1]@ == "{output}"@ ==> call.arguments@[i]@ == output@,
        command.argv@[i + 1]@ != "{input}"@ && command.argv@[i + 1]@ != "{output}"@
            ==> call.arguments@[i]@ == command.argv@[i + 1]@,
{
    let words = text::contents(call.arguments@);
    assert(words.len() == call.arguments@.len());
    assert(words[i] == call.arguments@[i]@);
    reveal_strlit("{input}");
    reveal_strlit("{output}");
    assert("{input}"@.len() != "{output}"@.len());
}

/// A moment is as far away as was asked for, as long as clocks can say.
pub proof fn moments_are_as_far_as_asked(now: u64, time: u64, moment: u64)
    requires
        call_ensures(lease::deadline, (now, time), moment),
    ensures
        now + time <= u64::MAX ==> moment == now + time,
        now + time > u64::MAX ==> moment == u64::MAX,
{
}

/// An edit that was cancelled is gone, and whether there was one is told; clearing leaves
/// none.
pub proof fn cancelled_edits_are_gone(
    before: EditManager,
    id: &str,
    after: EditManager,
    cancelled: bool,
    cleared: EditManager,
    i: int,
)
    requires
        before.wf(),
        exists|asked: &mut EditManager|
            *asked == before && *final(asked) == after && #[trigger] call_ensures(
                EditManager::cancel,
                (asked, id),
                cancelled,
            ),
        exists|asked: &mut EditManager|
            *asked == before && *final(asked) == cleared && #[trigger] call_ensures(
                EditManager::clear,
                (asked,),
                (),
            ),
    ensures
        cancelled <==> exists|k: int|
            0 <= k < before.leases.list@.len() && (#[trigger] before.leases.list@[k]).id@ == id@,
        forall|k: int|
            0 <= k < after.leases.list@.len() ==> (#[trigger] after.leases.list@[k]).id@ != id@,
        0 <= i < before.leases.list@.len() && before.leases.list@[i].id@ != id@
            ==> after.leases.list@.contains(before.leases.list@[i]),
        cleared.leases.list@.len() == 0,
{
    let list = before.leases.list@;
    the_first_lease_is_found(list, id@);
    the_first_lease_is_found(after.leases.list@, id@);
    let at = lease::place(list, id@);
    if at < list.len() {
        assert(list[at].id@ == id@);
    }
    if 0 <= i < list.len() && list[i].id@ != id@ {
        if at < list.len() && i > at {
            assert(after.leases.list@[i - 1] == list[i]);
        } else {
            assert(after.leases.list@[i] == list[i]);
        }
    }
}

/// A command is taken as it is configured where it is one, and else the default is; what
/// is no list of words is refused.
pub proof fn configured_commands_are_taken(
    words: Vec<String>,
    command: Result<ImageEditorCommand, String>,
    same: Result<ImageEditorCommand, String>,
    none: Result<ImageEditorCommand, String>,
    value: &str,
    read: Result<ImageEditorCommand, String>,
    configured: ImageEditorCommand,
    fallback: ImageEditorCommand,
)
    requires
        call_ensures(ImageEditorCommand::new, (words,), command),
        call_ensures(ImageEditorCommand::from_words, (Some(words),), same),
        call_ensures(ImageEditorCommand::from_words, (None,), none),
        call_ensures(ImageEditorCommand::from_json, (value,), read),
        call_ensures(ImageEditorCommand::configured, (Some(value),), configured),
        call_ensures(ImageEditorCommand::default, (), fallback),
    ensures
        same is Ok <==> command is Ok,
        same is Ok ==> same->Ok_0.argv@ == words@,
        none is Err,
        editor::json_words(value@) is None ==> read is Err,
        read matches Ok(read) ==> text::contents(configured.argv@) == text::contents(read.argv@),
        read is Err ==> text::contents(configured.argv@) == text::contents(fallback.argv@),
        text::contents(fallback.argv@)[0] == "satty"@,
{
}

/// A program did what it was asked where it ended well and says nothing but `ok`.
pub proof fn programs_must_say_ok(success: bool, stdout: &[u8], done: bool)
    requires
        call_ensures(session::dispatch_succeeded, (success, stdout), done),
    ensures
        !success ==> !done,
        done <==> success && text::trimmed(crate::classification::lossy_text(stdout@)) == "ok"@,
{
}

/// Edits expire as anything else does that is handed out for a while.
pub proof fn edits_expire_as_leases_do(
    before: EditManager,
    now: u64,
    after: EditManager,
    leases: Leases<EditCommit>,
)
    requires
        before.wf(),
        exists|asked: &mut EditManager|
            *asked == before && *final(asked) == after && #[trigger] call_ensures(
                EditManager::expire,
                (asked, now),
                (),
            ),
        exists|asked: &mut Leases<EditCommit>|
            *asked == before.leases && *final(asked) == leases && #[trigger] call_ensures(
                Leases::<EditCommit>::expire,
                (asked, now),
                (),
            ),
    ensures
        after.leases.list@ == leases.list@,
{
}

/// What is handed out is known by what it is for: sessions and edits by their own names.
pub proof fn names_say_what_they_are_for(
    before: SessionManager,
    target: Option<Target>,
    now: u64,
    after: SessionManager,
    shown: SessionView,
    edits: EditManager,
    details: EntryDetails,
    opened: EditManager,
    view: Result<EditView, &'static str>,
    hiding: SessionManager,
    id: &str,
    hidden_after: SessionManager,
    hidden: Result<Hidden, &'static str>,
)
    requires
        exists|asked: &mut SessionManager|
            *asked == before && *final(asked) == after && #[trigger] call_ensures(
                SessionManager::begin,
                (asked, target, now),
                shown,
            ),
        exists|asked: &mut EditManager|
            *asked == edits && *final(asked) == opened && #[trigger] call_ensures(
                EditManager::begin,
                (asked, &details, now),
                view,
            ),
        exists|asked: &mut SessionManager|
            *asked == hiding && *final(asked) == hidden_after && #[trigger] call_ensures(
                SessionManager::hidden,
                (asked, id, now),
                hidden,
            ),
    ensures
        shown.id@.len() >= 8 && shown.id@[0] == 's' && shown.id@[7] == '-',
        shown.state@ == "active"@,
        after.sessions@.last().id@ == shown.id@,
        view matches Ok(view) ==> view.id@.len() >= 5 && view.id@[0] == 'e' && view.id@[4] == '-'
            && opened.leases.list@.last().id@ == view.id@,
        hidden matches Ok(hidden) ==> hidden.view.state@ == "hidden"@ && hidden.view.id@ == id@,
        hidden is Ok ==> hidden_after.sessions@.len() == hiding.sessions@.len() - 1,
{
    reveal_strlit("session-");
    reveal_strlit("edit-");
    assert(shown.id@.take(8)[0] == 's');
    assert(shown.id@.take(8)[7] == '-');
    if let Ok(view) = view {
        assert(view.id@.take(5)[0] == 'e');
        assert(view.id@.take(5)[4] == '-');
    }
    the_first_session_is_found(hiding.sessions@, id@);
}

} // verus!
