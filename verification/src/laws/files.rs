//! The files that the daemon makes: which of them are its own, which are kept, and
//! which are deleted.
use crate::backend::BackendResult;
use crate::ringboard::artifacts;
use crate::ringboard::artifacts::{ArtifactRecord, ArtifactRegistry, Deletion, InlineEchoRecord};
use crate::ringboard::content;
use crate::ringboard::content::LocalImageSource;
use crate::ringboard::deletion;
use crate::ringboard::deletion::{CleanupAction, CleanupEvent, CleanupJob, CleanupStage};
use crate::ringboard::projection;
use crate::ringboard::RingboardBackend;
use crate::text;
use vstd::hash_set::StringHashSet;
use vstd::prelude::*;
use vstd::string::*;
use vstd::utf8::*;

verus! {

proof fn kept_and_mapped<T, U>(
    s: Seq<T>,
    keep: spec_fn(T) -> bool,
    read: spec_fn(T) -> U,
    i: int,
    k: int,
)
    ensures
        0 <= i < s.len() && keep(s[i]) ==> exists|j: int|
            0 <= j < s.filter(keep).len() && #[trigger] s.filter(keep).map_values(read)[j] == read(
                s[i],
            ),
        0 <= k < s.filter(keep).map_values(read).len() ==> exists|j: int|
            0 <= j < s.len() && keep(#[trigger] s[j]) && read(s[j]) == s.filter(keep).map_values(
                read,
            )[k],
{
    let kept = s.filter(keep);
    if 0 <= i < s.len() && keep(s[i]) {
        s.lemma_filter_contains(keep, i);
        let j = choose|j: int| 0 <= j < kept.len() && kept[j] == s[i];
        assert(kept.map_values(read)[j] == read(s[i]));
    }
    if 0 <= k < kept.map_values(read).len() {
        projection::filter_within(s, keep, k);
        s.lemma_filter_pred(keep, k);
        let j = choose|j: int| 0 <= j < s.len() && s[j] == kept[k];
        assert(keep(s[j]));
    }
}

/// A file is deleted exactly where it is on record, no entry refers to it, it is not on
/// the clipboard, and it was made a minute ago or earlier.
pub proof fn unused_files_are_deleted(
    registry: ArtifactRegistry,
    referenced: StringHashSet,
    now: u64,
    paths: Vec<String>,
    i: int,
    k: int,
)
    requires
        call_ensures(ArtifactRegistry::reconcile, (&registry, &referenced, now), paths),
    ensures
        0 <= i < registry.records().len() && !referenced@.contains(registry.records()[i].path@)
            && registry.active() != Some(registry.records()[i].path@)
            && registry.records()[i].created_at + 60 <= now ==> exists|j: int|
            0 <= j < paths@.len() && (#[trigger] paths@[j])@ == registry.records()[i].path@,
        0 <= k < paths@.len() ==> exists|j: int|
            0 <= j < registry.records().len() && (#[trigger] registry.records()[j]).path@
                == paths@[k]@ && !referenced@.contains(paths@[k]@) && registry.active() != Some(
                paths@[k]@,
            ) && registry.records()[j].created_at + 60 <= now,
{
    let records = registry.records();
    let keep = |r: ArtifactRecord|
        !artifacts::protected(
            r,
            referenced@,
            registry.active(),
            artifacts::PRUNE_GRACE_SECONDS,
            now,
        );
    let read = |r: ArtifactRecord| r.path@;
    kept_and_mapped(records, keep, read, i, k);
    let views = artifacts::path_views(paths@);
    assert(views.len() == paths@.len());
    if 0 <= i < records.len() && keep(records[i]) {
        let j = choose|j: int|
            0 <= j < records.filter(keep).len() && #[trigger] records.filter(keep).map_values(
                read,
            )[j] == read(records[i]);
        assert(views[j] == paths@[j]@);
    }
    if 0 <= k < paths@.len() {
        assert(views[k] == paths@[k]@);
        let j = choose|j: int|
            0 <= j < records.len() && keep(#[trigger] records[j]) && read(records[j])
                == records.filter(keep).map_values(read)[k];
        assert(records[j].path@ == paths@[k]@);
    }
}

/// Clearing forgets the clipboard and every echo, and gives every file on record to be
/// deleted.
pub proof fn clearing_deletes_every_file(
    before: ArtifactRegistry,
    now: u64,
    after: ArtifactRegistry,
    paths: Vec<String>,
    i: int,
)
    requires
        exists|asked: &mut ArtifactRegistry|
            *asked == before && *final(asked) == after && #[trigger] call_ensures(
                ArtifactRegistry::clear_all,
                (asked, now),
                paths,
            ),
    ensures
        paths@.len() == before.records().len(),
        0 <= i < paths@.len() ==> paths@[i]@ == before.records()[i].path@,
        after.echoes().len() == 0,
        after.active() is None,
        after.records() == before.records(),
{
    let views = artifacts::path_views(paths@);
    assert(views.len() == paths@.len());
    if 0 <= i < paths@.len() {
        assert(views[i] == paths@[i]@);
    }
}

/// A file that is gone is off the record, one that could not be deleted stays on it,
/// and the others stay as they are.
pub proof fn deleted_files_are_off_the_record(
    before: ArtifactRegistry,
    path: &str,
    outcome: Deletion,
    after: ArtifactRegistry,
    removed: bool,
    i: int,
)
    requires
        exists|asked: &mut ArtifactRegistry|
            *asked == before && *final(asked) == after && #[trigger] call_ensures(
                ArtifactRegistry::prune,
                (asked, path, outcome),
                removed,
            ),
    ensures
        removed <==> outcome is Deleted,
        outcome is Failed ==> after.records() == before.records(),
        !(outcome is Failed) ==> forall|k: int|
            0 <= k < after.records().len() ==> (#[trigger] after.records()[k]).path@ != path@,
        0 <= i < before.records().len() && before.records()[i].path@ != path@
            ==> after.records().contains(before.records()[i]),
        after.active() == before.active(),
{
    let keep = |r: ArtifactRecord| r.path@ != path@;
    let records = before.records();
    if !(outcome is Failed) {
        assert forall|k: int| 0 <= k < after.records().len() implies (
        #[trigger] after.records()[k]).path@ != path@ by {
            records.lemma_filter_pred(keep, k);
        }
        if 0 <= i < records.len() && keep(records[i]) {
            records.lemma_filter_contains(keep, i);
        }
    } else if 0 <= i < records.len() {
        assert(after.records()[i] == records[i]);
    }
}

/// A file that was made is put on record with the entry that it was made of and the
/// moment, once, and taken to be on the clipboard; one that is not the daemon's own is
/// refused, and nothing changes.
pub proof fn files_are_put_on_record(
    before: ArtifactRegistry,
    path: &str,
    source: &str,
    mime: &str,
    image: &[u8],
    now: u64,
    spelled: String,
    identity: String,
    after: ArtifactRegistry,
    result: BackendResult<()>,
    i: int,
)
    requires
        exists|asked: &mut ArtifactRegistry|
            *asked == before && *final(asked) == after && #[trigger] call_ensures(
                ArtifactRegistry::register,
                (asked, path, source, mime, image, now),
                result,
            ),
        call_ensures(artifacts::normal_path, (path,), spelled),
        call_ensures(content::image_identity, (mime, image), identity),
    ensures
        result is Err ==> after.records() == before.records() && after.active() == before.active(),
        result is Ok ==> {
            let record = after.records().last();
            &&& after.records().len() > 0
            &&& record.path@ == spelled@
            &&& record.source_entry_id@ == source@
            &&& record.image_identity@ == identity@
            &&& record.created_at == now
            &&& after.active() == Some(spelled@)
        },
        result is Ok && 0 <= i < before.records().len() && before.records()[i].path@ != spelled@
            ==> after.records().contains(before.records()[i]),
        after.echoes() == before.echoes(),
{
    if result is Ok && 0 <= i < before.records().len() && before.records()[i].path@ != spelled@ {
        let keep = |r: ArtifactRecord| r.path@ != spelled@;
        before.records().lemma_filter_contains(keep, i);
        let kept = before.records().filter(keep);
        assert(after.records().drop_last() == kept);
        let k = choose|k: int| 0 <= k < kept.len() && kept[k] == before.records()[i];
        assert(after.records()[k] == kept[k]);
    }
}

proof fn the_first_record_is_found(records: Seq<ArtifactRecord>, path: Seq<char>)
    ensures
        0 <= artifacts::record_index(records, path) <= records.len(),
        artifacts::record_index(records, path) < records.len() ==> records[artifacts::record_index(
            records,
            path,
        )].path@ == path,
        forall|i: int|
            0 <= i < artifacts::record_index(records, path) ==> (#[trigger] records[i]).path@
                != path,
    decreases records.len(),
{
    if records.len() > 0 && records[0].path@ != path {
        let rest = records.drop_first();
        the_first_record_is_found(rest, path);
        assert forall|i: int| 0 <= i < artifacts::record_index(records, path) implies (
        #[trigger] records[i]).path@ != path by {
            if i > 0 {
                assert(rest[i - 1] == records[i]);
            }
        }
    }
}

/// A file is taken to be on the clipboard exactly where it is on record.
pub proof fn only_recorded_files_are_active(
    before: ArtifactRegistry,
    path: &str,
    spelled: String,
    after: ArtifactRegistry,
)
    requires
        exists|asked: &mut ArtifactRegistry|
            *asked == before && *final(asked) == after && #[trigger] call_ensures(
                ArtifactRegistry::activate_if_generated,
                (asked, path),
                (),
            ),
        call_ensures(artifacts::normal_path, (path,), spelled),
    ensures
        ({
            let known = exists|i: int|
                0 <= i < before.records().len() && (#[trigger] before.records()[i]).path@
                    == spelled@;
            &&& known ==> after.active() == Some(spelled@)
            &&& !known ==> after.active() is None
        }),
        after.records() == before.records(),
{
    the_first_record_is_found(before.records(), spelled@);
    let at = artifacts::record_index(before.records(), spelled@);
    if at < before.records().len() {
        assert(before.records()[at].path@ == spelled@);
    }
}

/// A file that is given up is off the record, and off the clipboard where it was on it.
pub proof fn given_up_files_are_forgotten(
    before: ArtifactRegistry,
    path: &str,
    spelled: String,
    after: ArtifactRegistry,
    i: int,
)
    requires
        exists|asked: &mut ArtifactRegistry|
            *asked == before && *final(asked) == after && #[trigger] call_ensures(
                ArtifactRegistry::forget,
                (asked, path),
                (),
            ),
        call_ensures(artifacts::normal_path, (path,), spelled),
    ensures
        forall|k: int|
            0 <= k < after.records().len() ==> (#[trigger] after.records()[k]).path@ != spelled@,
        0 <= i < before.records().len() && before.records()[i].path@ != spelled@
            ==> after.records().contains(before.records()[i]),
        before.active() == Some(spelled@) ==> after.active() is None,
        before.active() != Some(spelled@) ==> after.active() == before.active(),
{
    let keep = |r: ArtifactRecord| r.path@ != spelled@;
    let records = before.records();
    assert forall|k: int| 0 <= k < after.records().len() implies (
    #[trigger] after.records()[k]).path@ != spelled@ by {
        records.lemma_filter_pred(keep, k);
    }
    if 0 <= i < records.len() && keep(records[i]) {
        records.lemma_filter_contains(keep, i);
    }
}

proof fn the_first_echo_is_found(echoes: Seq<InlineEchoRecord>, identity: Seq<char>)
    ensures
        0 <= artifacts::echo_index(echoes, identity) <= echoes.len(),
        artifacts::echo_index(echoes, identity) < echoes.len() ==> echoes[artifacts::echo_index(
            echoes,
            identity,
        )].image_identity@ == identity,
        forall|i: int|
            0 <= i < artifacts::echo_index(echoes, identity) ==> (
            #[trigger] echoes[i]).image_identity@ != identity,
    decreases echoes.len(),
{
    if echoes.len() > 0 && echoes[0].image_identity@ != identity {
        let rest = echoes.drop_first();
        the_first_echo_is_found(rest, identity);
        assert forall|i: int| 0 <= i < artifacts::echo_index(echoes, identity) implies (
        #[trigger] echoes[i]).image_identity@ != identity by {
            if i > 0 {
                assert(rest[i - 1] == echoes[i]);
            }
        }
    }
}

/// An edited image that is expected is known when it comes back, as an echo of the
/// entry that it was made of, and not where it is that entry itself. At most 128 are
/// expected at a time.
pub proof fn edited_images_are_known_again(
    before: ArtifactRegistry,
    source: &str,
    mime: &str,
    image: &[u8],
    now: u64,
    after: ArtifactRegistry,
    entry: &str,
    found: Option<String>,
)
    requires
        before.wf(),
        exists|asked: &mut ArtifactRegistry|
            *asked == before && *final(asked) == after && #[trigger] call_ensures(
                ArtifactRegistry::register_inline_echo,
                (asked, source, mime, image, now),
                (),
            ),
        call_ensures(ArtifactRegistry::match_inline_echo, (&after, mime, image, entry), found),
        before.echoes().len() < 128,
    ensures
        entry@ != source@ ==> (found matches Some(found) && found@ == source@),
        entry@ == source@ ==> found is None,
        after.echoes().len() <= 128,
        after.records() == before.records(),
{
    let identity = artifacts::inline_identity(mime@, image@);
    let record = choose|record: InlineEchoRecord| #[trigger]
        artifacts::is_echo(record, source@, identity, now) && artifacts::echo_added(
            before.echoes(),
            record,
            after.echoes(),
        );
    let keep = |r: InlineEchoRecord| r.image_identity@ != identity;
    let others = artifacts::other_echoes(before.echoes(), identity);
    before.echoes().lemma_filter_len(keep);
    assert(after.echoes() == others.push(record));
    the_first_echo_is_found(after.echoes(), identity);
    let at = artifacts::echo_index(after.echoes(), identity);
    if at < others.len() {
        before.echoes().lemma_filter_pred(keep, at);
        assert(after.echoes()[at] == others[at]);
    }
    assert(after.echoes()[others.len() as int] == record);
    if at > others.len() {
        assert(after.echoes()[others.len() as int].image_identity@ != identity);
    }
    assert(at == others.len());
}

/// A file counts as made from an entry only where it is on record, is a regular file of
/// at most 64 MiB, and still holds the image that was put into it.
pub proof fn files_are_known_by_what_they_hold(
    registry: ArtifactRegistry,
    source: LocalImageSource,
    regular: bool,
    size: u64,
    image: Option<&[u8]>,
    mime: &str,
    entry: Option<String>,
)
    requires
        call_ensures(
            ArtifactRegistry::match_local_image,
            (&registry, &source, regular, size, image),
            entry,
        ),
        mime@ == source.mime@,
    ensures
        entry matches Some(entry) ==> {
            &&& regular
            &&& size <= 64 * 1024 * 1024
            &&& image is Some
            &&& valid_utf8(source.path@)
            &&& exists|i: int|
                0 <= i < registry.records().len() && (
                #[trigger] registry.records()[i]).source_entry_id@ == entry@
                    && registry.records()[i].path@ == artifacts::normal(decode_utf8(source.path@))
                    && registry.records()[i].image_identity@ == content::image_identity_of(
                    mime@,
                    image->0@,
                )
        },
{
    if entry is Some {
        let path = artifacts::normal(decode_utf8(source.path@));
        the_first_record_is_found(registry.records(), path);
        let at = artifacts::record_index(registry.records(), path);
        assert(registry.records()[at].path@ == path);
    }
}

/// An entry refers to the files that its lines name: those of its first line, and those
/// of the rest. A line too long to look at refers to all of them.
pub proof fn every_line_can_refer(
    registry: ArtifactRegistry,
    line: Seq<u8>,
    rest: &[u8],
    entry: &[u8],
    others: Vec<String>,
    found: Vec<String>,
    path: Seq<char>,
)
    requires
        registry.records().len() > 0,
        forall|i: int| 0 <= i < line.len() ==> #[trigger] line[i] != 0x0a,
        entry@ == line.push(0x0a) + rest@,
        call_ensures(ArtifactRegistry::references_in, (&registry, rest), others),
        call_ensures(ArtifactRegistry::references_in, (&registry, entry), found),
    ensures
        line.len() < 32_768 ==> (projection::paths_of(found@).contains(path)
            <==> projection::paths_of(others@).contains(path) || (valid_utf8(line.push(0x0a)) && (
        content::url_path(text::trimmed(decode_utf8(line.push(0x0a)))) matches Some(local)
            && valid_utf8(local) && artifacts::normal(decode_utf8(local)) == path && exists|i: int|
            0 <= i < registry.records().len() && (#[trigger] registry.records()[i]).path@ == path))),
        line.len() >= 32_768 ==> (projection::paths_of(found@).contains(path) <==> exists|i: int|
            0 <= i < registry.records().len() && (#[trigger] registry.records()[i]).path@ == path),
{
    lines_end_behind_the_feed(line, rest@, 0);
    let end = artifacts::line_end(entry@, 0);
    the_first_record_is_found(registry.records(), path);
    let at = artifacts::record_index(registry.records(), path);
    if at < registry.records().len() {
        assert(registry.records()[at].path@ == path);
    }
    if line.len() < 32_768 {
        assert(entry@.take(end) =~= line.push(0x0a));
        assert(entry@.skip(end) =~= rest@);
        assert(entry@[end - 1] == 0x0a);
    } else {
        assert(entry@[end - 1] == line[end - 1]);
        paths_are_those_on_record(registry.records(), path);
    }
}

proof fn lines_end_behind_the_feed(line: Seq<u8>, rest: Seq<u8>, at: int)
    requires
        0 <= at <= line.len(),
        at <= 32_768,
        forall|i: int| 0 <= i < line.len() ==> #[trigger] line[i] != 0x0a,
    ensures
        artifacts::line_end(line.push(0x0a) + rest, at) == if line.len() < 32_768 {
            line.len() + 1
        } else {
            32_768
        },
    decreases line.len() - at,
{
    let entry = line.push(0x0a) + rest;
    if at < 32_768 {
        if at < line.len() {
            assert(entry[at] == line[at]);
            lines_end_behind_the_feed(line, rest, at + 1);
        } else {
            assert(entry[at] == 0x0a);
        }
    }
}

proof fn paths_are_those_on_record(records: Seq<ArtifactRecord>, path: Seq<char>)
    ensures
        artifacts::all_paths(records).contains(path) <==> exists|i: int|
            0 <= i < records.len() && (#[trigger] records[i]).path@ == path,
    decreases records.len(),
{
    if records.len() > 0 {
        let front = records.drop_last();
        paths_are_those_on_record(front, path);
        if exists|i: int| 0 <= i < records.len() && (#[trigger] records[i]).path@ == path {
            let i = choose|i: int| 0 <= i < records.len() && (#[trigger] records[i]).path@ == path;
            if i < front.len() {
                assert(front[i] == records[i]);
            } else {
                assert(records.last() == records[i]);
            }
        }
        if exists|i: int| 0 <= i < front.len() && (#[trigger] front[i]).path@ == path {
            let i = choose|i: int| 0 <= i < front.len() && (#[trigger] front[i]).path@ == path;
            assert(records[i] == front[i]);
        }
        if records.last().path@ == path {
            assert(records[records.len() - 1].path@ == path);
        }
    }
}

/// A part of a path as it counts: not empty, not `.`, and without a slash.
pub open spec fn counts(name: Seq<char>) -> bool {
    &&& name.len() > 0
    &&& name != "."@
    &&& !name.contains('/')
}

proof fn a_last_part_is_added(path: Seq<char>, name: Seq<char>)
    requires
        !name.contains('/'),
    ensures
        counts(name) ==> artifacts::parts_of(path.push('/') + name) == artifacts::parts_of(path).push(
            name,
        ),
        !counts(name) ==> artifacts::parts_of(path.push('/') + name) == artifacts::parts_of(path),
    decreases path.len(),
{
    let whole = path.push('/') + name;
    text::index_of_is_first(whole, '/');
    text::index_of_is_first(path, '/');
    let at = text::index_of(path, '/');
    if at < path.len() {
        // The first slash stands in the path.
        let rest = path.skip(at + 1);
        a_last_part_is_added(rest, name);
        assert(whole[at] == '/');
        let first = text::index_of(whole, '/');
        if first < at {
            assert(path[first] == whole[first]);
        }
        assert(first == at);
        assert(whole.take(at) =~= path.take(at));
        assert(whole.skip(at + 1) =~= rest.push('/') + name);
        let part = path.take(at);
        let others = artifacts::parts_of(rest);
        if !(part.len() == 0 || part == "."@) {
            assert(seq![part] + others.push(name) =~= (seq![part] + others).push(name));
        }
    } else {
        // The path is a single part.
        let first = text::index_of(whole, '/');
        assert(whole[path.len() as int] == '/');
        if first < path.len() {
            assert(path[first] == whole[first]);
        }
        assert(first == path.len());
        assert(whole.take(first) =~= path);
        assert(whole.skip(first + 1) =~= name);
        a_single_part(name);
        a_single_part(path);
        if path.len() > 0 && path != "."@ {
            assert(seq![path] + seq![name] =~= seq![path].push(name));
            assert(seq![path] + Seq::<Seq<char>>::empty() =~= seq![path]);
        } else {
            assert(artifacts::parts_of(path) =~= Seq::<Seq<char>>::empty());
            assert(Seq::<Seq<char>>::empty().push(name) =~= seq![name]);
        }
    }
}

proof fn a_single_part(name: Seq<char>)
    requires
        !name.contains('/'),
    ensures
        counts(name) ==> artifacts::parts_of(name) == seq![name],
        !counts(name) ==> artifacts::parts_of(name) == Seq::<Seq<char>>::empty(),
{
    text::index_of_is_first(name, '/');
    if name.len() > 0 {
        assert(name.take(name.len() as int) =~= name);
        assert(seq![name] + Seq::<Seq<char>>::empty() =~= seq![name]);
    }
}

/// A path has the parts between its slashes: one more behind a slash is its last part,
/// and empty parts and `.` do not count.
pub proof fn paths_are_made_of_their_parts(
    path: &[char],
    name: Seq<char>,
    longer: &[char],
    parts: Vec<Vec<char>>,
    more: Vec<Vec<char>>,
)
    requires
        !name.contains('/'),
        longer@ == path@.push('/') + name,
        call_ensures(artifacts::path_parts, (path,), parts),
        call_ensures(artifacts::path_parts, (longer,), more),
    ensures
        counts(name) ==> more@.len() == parts@.len() + 1 && more@.last()@ == name,
        !counts(name) ==> more@.len() == parts@.len(),
        forall|i: int| 0 <= i < parts@.len() ==> more@[i]@ == #[trigger] parts@[i]@,
{
    a_last_part_is_added(path@, name);
    let a = text::views(parts@);
    let b = text::views(more@);
    assert(a.len() == parts@.len());
    assert(b.len() == more@.len());
    assert forall|i: int| 0 <= i < parts@.len() implies more@[i]@ == #[trigger] parts@[i]@ by {
        assert(a[i] == parts@[i]@);
        assert(b[i] == more@[i]@);
    }
    if counts(name) {
        assert(b.last() == more@[more@.len() - 1]@);
    }
}

/// A file is the daemon's own only directly in its directory, under a name that begins
/// with `clipboard-` and ends with the extension of an image; without a directory none
/// is.
pub proof fn own_files_have_their_place_and_name(
    root: Option<String>,
    dir: Seq<char>,
    name: Seq<char>,
    path: &str,
    own: bool,
)
    requires
        call_ensures(artifacts::owned_path, (&root, path), own),
        counts(name),
        path@ == dir.push('/') + name,
    ensures
        root is None ==> !own,
        own ==> root is Some && artifacts::parts_of(dir) == artifacts::parts_of(root->0@),
        own ==> name.len() >= 10 && name.take(10) == "clipboard-"@,
        own ==> name.contains('.'),
        own ==> name.last() == 'g' || name.last() == 'p' || name.last() == 'f',
{
    a_last_part_is_added(dir, name);
    reveal_strlit("clipboard-");
    assert("clipboard-"@.len() == 10);
    if own {
        let parts = artifacts::parts_of(path@);
        assert(parts.drop_last() =~= artifacts::parts_of(dir));
        assert(parts.last() == name);
        let rest = name.skip(10);
        the_last_dot_is_one(rest);
        let at = artifacts::last_index_of(rest, '.');
        let extension = rest.skip(at + 1);
        reveal_strlit("png");
        reveal_strlit("jpg");
        reveal_strlit("webp");
        reveal_strlit("gif");
        reveal_strlit("bmp");
        reveal_strlit("tiff");
        reveal_strlit("svg");
        assert(name[10 + at] == '.');
        assert(extension.len() > 0);
        assert(name.last() == extension.last());
    }
}

proof fn the_last_dot_is_one(s: Seq<char>)
    ensures
        -1 <= artifacts::last_index_of(s, '.') < s.len(),
        artifacts::last_index_of(s, '.') >= 0 ==> s[artifacts::last_index_of(s, '.')] == '.',
    decreases s.len(),
{
    if s.len() > 0 && s.last() != '.' {
        the_last_dot_is_one(s.drop_last());
    }
}

/// Clearing goes on step by step: what is kept apart is removed, then the files that no
/// entry refers to are deleted and that is saved; where the history was wiped, every
/// file is, and that is saved too. A step that fails ends it with that failure.
pub proof fn clearing_goes_step_by_step(
    before: RingboardBackend,
    job: CleanupJob,
    event: CleanupEvent,
    now: u64,
    after: RingboardBackend,
    next: CleanupJob,
    action: CleanupAction,
)
    requires
        deletion::cleanup_advanced(before, job, event, now, after, next, action),
    ensures
        next.wipe == job.wipe,
        job.stage is Sending && event == CleanupEvent::Sent(Ok(())) ==> action is ClearCaches,
        job.stage is Clearing && event == CleanupEvent::Cleared(Ok(())) ==> action is Collect,
        job.stage is Pruning && event is Deleted && event->Deleted_0 is Ok ==> action is SaveRegistry,
        job.stage is Pruned && event == CleanupEvent::Saved(Ok(())) && !job.wipe ==> (
        action matches CleanupAction::Done(Ok(operation)) && operation.action@ == "cleanup"@
            && operation.status@ == "completed"@),
        job.stage is Pruned && event == CleanupEvent::Saved(Ok(())) && job.wipe ==> action is Delete
            && after.artifacts.echoes().len() == 0 && after.artifacts.active() is None,
        job.stage is Erasing && event is Deleted && event->Deleted_0 is Ok ==> action is SaveRegistry,
        job.stage is Erased && event == CleanupEvent::Saved(Ok(())) ==> (
        action matches CleanupAction::Done(Ok(operation)) && operation.action@ == "wipe"@
            && operation.status@ == "completed"@) && forall|id: Seq<char>|
            !(#[trigger] after.ids@.contains_key(id)),
        job.stage is Sending && event is Sent && event->Sent_0 is Err ==> action
            == CleanupAction::Done(Err(event->Sent_0->Err_0)),
        job.stage is Clearing && event is Cleared && event->Cleared_0 is Err ==> action
            == CleanupAction::Done(Err(event->Cleared_0->Err_0)),
        job.stage is Collecting && event is Collected && event->Collected_0 is Err ==> action
            == CleanupAction::Done(Err(event->Collected_0->Err_0)),
        action is Send ==> false,
{
}

/// What a wipe deletes in the end are all files on record.
pub proof fn wipes_delete_every_file(
    before: RingboardBackend,
    removed: u64,
    now: u64,
    after: RingboardBackend,
    next: CleanupJob,
    action: CleanupAction,
    i: int,
)
    requires
        deletion::cleanup_advanced(
            before,
            CleanupJob { wipe: true, stage: CleanupStage::Pruned { removed } },
            CleanupEvent::Saved(Ok(())),
            now,
            after,
            next,
            action,
        ),
        0 <= i < before.artifacts.records().len(),
    ensures
        action matches CleanupAction::Delete(paths) && paths@.len()
            == before.artifacts.records().len() && paths@[i]@ == before.artifacts.records()[i].path@,
{
    if let CleanupAction::Delete(paths) = action {
        let views = artifacts::path_views(paths@);
        assert(views.len() == paths@.len());
        assert(views[i] == paths@[i]@);
    }
}

/// What clearing deletes are the files on record that no entry refers to, that are not
/// on the clipboard, and that were made a minute ago or earlier.
pub proof fn clearing_deletes_unused_files(
    before: RingboardBackend,
    job: CleanupJob,
    referenced: StringHashSet,
    now: u64,
    after: RingboardBackend,
    next: CleanupJob,
    action: CleanupAction,
    i: int,
    k: int,
)
    requires
        job.stage is Collecting,
        deletion::cleanup_advanced(
            before,
            job,
            CleanupEvent::Collected(Ok(referenced)),
            now,
            after,
            next,
            action,
        ),
    ensures
        action is Delete,
        ({
            let records = before.artifacts.records();
            let paths = action->Delete_0@;
            &&& 0 <= i < records.len() && !referenced@.contains(records[i].path@)
                && before.artifacts.active() != Some(records[i].path@) && records[i].created_at + 60
                <= now ==> exists|j: int|
                0 <= j < paths.len() && (#[trigger] paths[j])@ == records[i].path@
            &&& 0 <= k < paths.len() ==> exists|j: int|
                0 <= j < records.len() && (#[trigger] records[j]).path@ == paths[k]@
                    && !referenced@.contains(paths[k]@) && before.artifacts.active() != Some(
                    paths[k]@,
                ) && records[j].created_at + 60 <= now
        }),
{
    let records = before.artifacts.records();
    let paths = action->Delete_0@;
    let keep = |r: ArtifactRecord|
        !artifacts::protected(
            r,
            referenced@,
            before.artifacts.active(),
            artifacts::PRUNE_GRACE_SECONDS,
            now,
        );
    let read = |r: ArtifactRecord| r.path@;
    kept_and_mapped(records, keep, read, i, k);
    let views = artifacts::path_views(paths);
    assert(views.len() == paths.len());
    if 0 <= i < records.len() && keep(records[i]) {
        let j = choose|j: int|
            0 <= j < records.filter(keep).len() && #[trigger] records.filter(keep).map_values(
                read,
            )[j] == read(records[i]);
        assert(views[j] == paths[j]@);
    }
    if 0 <= k < paths.len() {
        assert(views[k] == paths[k]@);
        let j = choose|j: int|
            0 <= j < records.len() && keep(#[trigger] records[j]) && read(records[j])
                == records.filter(keep).map_values(read)[k];
        assert(records[j].path@ == paths[k]@);
    }
}

/// A file whose record could not be saved is off the record again, and nothing is taken
/// to be on the clipboard; one whose record was saved stays.
pub proof fn unsaved_records_are_taken_back(
    before: ArtifactRegistry,
    path: &str,
    saved: BackendResult<()>,
    spelled: String,
    after: ArtifactRegistry,
    result: BackendResult<()>,
    cleared: ArtifactRegistry,
)
    requires
        exists|asked: &mut ArtifactRegistry|
            *asked == before && *final(asked) == after && #[trigger] call_ensures(
                ArtifactRegistry::registered,
                (asked, path, saved),
                result,
            ),
        call_ensures(artifacts::normal_path, (path,), spelled),
        exists|asked: &mut ArtifactRegistry|
            *asked == before && *final(asked) == cleared && #[trigger] call_ensures(
                ArtifactRegistry::clear_active_selection,
                (asked,),
                (),
            ),
    ensures
        result == saved,
        saved is Ok ==> after == before,
        saved is Err ==> after.active() is None && forall|k: int|
            0 <= k < after.records().len() ==> (#[trigger] after.records()[k]).path@ != spelled@,
        cleared.active() is None,
        cleared.records() == before.records(),
{
    if saved is Err {
        let keep = |r: ArtifactRecord| r.path@ != spelled@;
        assert forall|k: int| 0 <= k < after.records().len() implies (
        #[trigger] after.records()[k]).path@ != spelled@ by {
            before.records().lemma_filter_pred(keep, k);
        }
    }
}

/// A history that could not be read whole says nothing of which files are in use, and
/// nothing is deleted on its word.
pub proof fn partial_histories_delete_nothing(
    backend: RingboardBackend,
    shown: crate::ringboard::projection::QueryProjection,
    now: u64,
    paths: Vec<String>,
    k: int,
)
    requires
        call_ensures(RingboardBackend::reconcile_projection, (&backend, &shown, now), paths),
    ensures
        !shown.complete ==> paths@.len() == 0,
        0 <= k < paths@.len() ==> !shown.artifact_references@.contains(paths@[k]@)
            && backend.artifacts.active() != Some(paths@[k]@) && exists|j: int|
            0 <= j < backend.artifacts.records().len() && (
            #[trigger] backend.artifacts.records()[j]).path@ == paths@[k]@
                && backend.artifacts.records()[j].created_at + 60 <= now,
{
    if shown.complete && 0 <= k < paths@.len() {
        let records = backend.artifacts.records();
        let keep = |r: ArtifactRecord|
            !artifacts::protected(
                r,
                shown.artifact_references@,
                backend.artifacts.active(),
                artifacts::PRUNE_GRACE_SECONDS,
                now,
            );
        let read = |r: ArtifactRecord| r.path@;
        kept_and_mapped(records, keep, read, 0, k);
        let views = artifacts::path_views(paths@);
        assert(views.len() == paths@.len());
        assert(views[k] == paths@[k]@);
        let j = choose|j: int|
            0 <= j < records.len() && keep(#[trigger] records[j]) && read(records[j])
                == records.filter(keep).map_values(read)[k];
        assert(records[j].path@ == paths@[k]@);
    }
}

/// An image that is known by its digest is an echo of the entry that it was made of,
/// unless it is that entry.
pub proof fn echoes_are_known_by_their_digest(
    registry: ArtifactRegistry,
    identity: &str,
    entry: &str,
    found: Option<String>,
)
    requires
        call_ensures(ArtifactRegistry::match_identity, (&registry, identity, entry), found),
    ensures
        found matches Some(source) ==> source@ != entry@ && exists|i: int|
            0 <= i < registry.echoes().len() && (#[trigger] registry.echoes()[i]).image_identity@
                == identity@ && registry.echoes()[i].source_entry_id@ == source@,
        (forall|i: int|
            0 <= i < registry.echoes().len() ==> (#[trigger] registry.echoes()[i]).image_identity@
                != identity@) ==> found is None,
{
    the_first_echo_is_found(registry.echoes(), identity@);
    let at = artifacts::echo_index(registry.echoes(), identity@);
    if at < registry.echoes().len() {
        assert(registry.echoes()[at].image_identity@ == identity@);
    }
}

/// What was written down of a file of the daemon's own counts, and what was written down
/// last counts for the file; what was written down of any other file does not.
pub proof fn records_of_own_files_are_loaded(
    root: Option<String>,
    records: Vec<ArtifactRecord>,
    echoes: Vec<InlineEchoRecord>,
    registry: ArtifactRegistry,
    record: ArtifactRecord,
    longer: Vec<ArtifactRecord>,
    larger: ArtifactRegistry,
    path: &str,
    spelled: String,
    spelled_path: &str,
    own: bool,
    k: int,
)
    requires
        call_ensures(ArtifactRegistry::load, (root, records, echoes), registry),
        longer@ == records@.push(record),
        call_ensures(ArtifactRegistry::load, (root, longer, echoes), larger),
        path@ == record.path@,
        call_ensures(artifacts::normal_path, (path,), spelled),
        spelled_path@ == spelled@,
        call_ensures(artifacts::owned_path, (&root, spelled_path), own),
    ensures
        registry.active() is None && registry.root() == text::maybe(root),
        records@.len() == 0 ==> registry.records().len() == 0,
        echoes@.len() == 0 ==> registry.echoes().len() == 0,
        !own ==> larger.records().len() == registry.records().len() && (0 <= k
            < registry.records().len() ==> larger.records()[k]@ == registry.records()[k]@),
        own ==> larger.records().len() > 0 && larger.records().last().path@ == spelled@
            && larger.records().last().source_entry_id@ == record.source_entry_id@
            && larger.records().last().image_identity@ == record.image_identity@
            && larger.records().last().created_at == record.created_at,
        own && 0 <= k < larger.records().len() - 1 ==> larger.records()[k].path@ != spelled@,
{
    let views = artifacts::record_views(records@);
    assert(artifacts::record_views(longer@) =~= views.push(record@));
    assert(artifacts::record_views(longer@).drop_last() =~= views);
    let shown = artifacts::record_views(registry.records());
    let more = artifacts::record_views(larger.records());
    assert(shown.len() == registry.records().len());
    assert(more.len() == larger.records().len());
    if own {
        let keep = |r: artifacts::RecordView| r.path != spelled@;
        assert(more.last() == larger.records().last()@);
        if 0 <= k < more.len() - 1 {
            shown.lemma_filter_pred(keep, k);
            assert(more[k] == larger.records()[k]@);
        }
    } else if 0 <= k < shown.len() {
        assert(more[k] == larger.records()[k]@);
        assert(shown[k] == registry.records()[k]@);
    }
}

} // verus!
