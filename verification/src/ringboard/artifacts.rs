//! The files that the daemon has made, and which of them may be deleted.
//!
//! Only files that are on record are ever deleted. That a file lies in the
//! daemon's directory makes it no file of the daemon.
use crate::backend;
use crate::backend::{BackendError, BackendErrorKind, BackendResult, MAX_WAYLAND_SELECTION_BYTES};
use crate::bytes;
use crate::classification::INSPECTION_LIMIT;
use crate::ringboard::content;
use crate::ringboard::content::LocalImageSource;
use crate::ringboard::projection;
use crate::text;
use uuid::Uuid;
use vstd::hash_set::*;
use vstd::prelude::*;
use vstd::string::*;
use vstd::utf8::*;

verus! {

/// How long a file is kept after it was made, in seconds.
pub const PRUNE_GRACE_SECONDS: u64 = 60;

/// The most echoes of edited images that are remembered.
pub const MAX_INLINE_ECHOES: usize = 128;

/// The longest line of an entry that is looked at.
pub const MAX_LINE_BYTES: usize = 32_768;

/// A file that the daemon has made.
#[derive(Debug)]
pub struct ArtifactRecord {
    pub path: String,
    pub source_entry_id: String,
    pub image_identity: String,
    pub created_at: u64,
}

/// An edited image that comes back as a capture of its own.
#[derive(Debug)]
pub struct InlineEchoRecord {
    pub source_entry_id: String,
    pub image_identity: String,
    pub created_at: u64,
}

/// The parts of a path: what stands between slashes, but for empty parts and
/// `.`.
pub open spec fn parts_of(path: Seq<char>) -> Seq<Seq<char>>
    decreases path.len(),
    via parts_decreases
{
    if path.len() == 0 {
        Seq::empty()
    } else {
        let at = text::index_of(path, '/');
        let part = path.take(at);
        let rest = if at < path.len() {
            parts_of(path.skip(at + 1))
        } else {
            Seq::empty()
        };
        if part.len() == 0 || part == "."@ {
            rest
        } else {
            seq![part] + rest
        }
    }
}

#[via_fn]
proof fn parts_decreases(path: Seq<char>) {
    text::index_of_is_first(path, '/');
}

/// Parts with a slash before each, but for the first of a path that does not
/// begin at the root.
pub open spec fn joined(prefix: Seq<char>, parts: Seq<Seq<char>>) -> Seq<char>
    decreases parts.len(),
{
    if parts.len() == 0 {
        prefix
    } else {
        let before = joined(prefix, parts.drop_last());
        if before.len() == 0 || before.last() == '/' {
            before + parts.last()
        } else {
            before.push('/') + parts.last()
        }
    }
}

/// The one spelling of a path that stands for all of them.
pub open spec fn normal(path: Seq<char>) -> Seq<char> {
    joined(
        if backend::absolute(path) {
            seq!['/']
        } else {
            Seq::empty()
        },
        parts_of(path),
    )
}

/// The parts of a path.
pub fn path_parts(path: &[char]) -> (parts: Vec<Vec<char>>)
    ensures
        text::views(parts@) == parts_of(path@),
{
    proof {
        reveal_strlit(".");
    }
    let mut parts: Vec<Vec<char>> = Vec::new();
    let mut from: usize = 0;
    assert(path@.skip(0) =~= path@);
    assert(text::views(parts@) + parts_of(path@) =~= parts_of(path@));
    while from < path.len()
        invariant
            from <= path@.len(),
            parts_of(path@) == text::views(parts@) + parts_of(path@.skip(from as int)),
            "."@.len() == 1,
            "."@[0] == '.',
        decreases path@.len() - from,
    {
        let rest = text::slice_chars(path, from, path.len());
        assert(rest@ =~= path@.skip(from as int));
        let at = text::find_char(rest.as_slice(), '/');
        let part = text::slice_chars(rest.as_slice(), 0, at);
        assert(part@ =~= rest@.take(at as int));
        let ghost before = parts@;
        let ghost tail = if at < rest@.len() {
            parts_of(rest@.skip(at + 1))
        } else {
            Seq::empty()
        };
        let skip: bool = part.len() == 0 || (part.len() == 1 && part[0] == '.');
        proof {
            if part@ == "."@ {
                assert(part@.len() == 1 && part@[0] == '.');
            } else if part@.len() == 1 && part@[0] == '.' {
                assert(part@ =~= "."@);
            }
        }
        if !skip {
            parts.push(part);
            assert(text::views(parts@) =~= text::views(before).push(part@));
            assert(text::views(before) + (seq![part@] + tail) =~= text::views(parts@) + tail);
        }
        if at < rest.len() {
            assert(rest@.skip(at + 1) =~= path@.skip(from + at + 1));
            from = from + at + 1;
        } else {
            assert(text::views(parts@) + tail =~= text::views(parts@));
            return parts;
        }
    }
    assert(text::views(parts@) + parts_of(path@.skip(from as int)) =~= text::views(parts@));
    parts
}

/// The one spelling of a path that stands for all of them.
pub fn normal_path(path: &str) -> (result: String)
    ensures
        result@ == normal(path@),
{
    let chars = text::chars_of(path);
    let parts = path_parts(chars.as_slice());
    let ghost views = text::views(parts@);
    let mut result: Vec<char> = Vec::new();
    if chars.len() > 0 && chars[0] == '/' {
        result.push('/');
    }
    let ghost prefix = result@;
    assert(prefix =~= if backend::absolute(path@) {
        seq!['/']
    } else {
        Seq::empty()
    });
    assert(views.take(0) =~= Seq::empty());
    for i in 0..parts.len()
        invariant
            views == text::views(parts@),
            result@ == joined(prefix, views.take(i as int)),
    {
        let ghost before = result@;
        proof {
            assert(views.take(i + 1).drop_last() =~= views.take(i as int));
            assert(views.take(i + 1).last() == parts@[i as int]@);
        }
        let n: usize = result.len();
        if n > 0 && result[n - 1] != '/' {
            result.push('/');
        }
        let ghost spaced = result@;
        let length: usize = parts[i].len();
        for k in 0..length
            invariant
                i < parts@.len(),
                length == parts@[i as int]@.len(),
                result@ == spaced + parts@[i as int]@.take(k as int),
        {
            result.push(parts[i][k]);
            assert(parts@[i as int]@.take(k + 1) =~= parts@[i as int]@.take(k as int).push(
                parts@[i as int]@[k as int],
            ));
        }
        assert(parts@[i as int]@.take(parts@[i as int]@.len() as int) =~= parts@[i as int]@);
    }
    assert(views.take(parts@.len() as int) =~= views);
    text::string_of(result.as_slice())
}

/// `uuid` reads `s` as an identifier.
pub uninterp spec fn uuid_text(s: Seq<char>) -> bool;

/// `Uuid::parse_str`: whether it succeeds is a function of the text.
#[verifier::external_body]
fn is_uuid(s: &str) -> (result: bool)
    ensures
        result == uuid_text(s@),
{
    Uuid::parse_str(s).is_ok()
}

/// Where `c` last stands in `s`, or -1.
pub open spec fn last_index_of(s: Seq<char>, c: char) -> int
    decreases s.len(),
{
    if s.len() == 0 {
        -1
    } else if s.last() == c {
        s.len() - 1
    } else {
        last_index_of(s.drop_last(), c)
    }
}

/// The extension of an image file that the daemon makes.
pub open spec fn image_extension(s: Seq<char>) -> bool {
    s == "png"@ || s == "jpg"@ || s == "webp"@ || s == "gif"@ || s == "bmp"@ || s == "tiff"@ || s
        == "svg"@
}

/// The parts of a name that follows the pattern of the daemon's files.
pub open spec fn name_parts(name: Seq<char>) -> Option<(Seq<char>, Seq<char>)> {
    let rest = name.skip("clipboard-"@.len() as int);
    let at = last_index_of(rest, '.');
    if text::begins(name, "clipboard-"@) && at >= 0 {
        Some((rest.take(at), rest.skip(at + 1)))
    } else {
        None
    }
}

/// The name of a file that the daemon makes.
pub open spec fn owned_name(name: Seq<char>) -> bool {
    match name_parts(name) {
        Some((id, extension)) => uuid_text(id) && image_extension(extension),
        None => false,
    }
}

/// A file directly in the daemon's directory, with a name that it makes.
pub open spec fn owned(root: Option<Seq<char>>, path: Seq<char>) -> bool {
    match root {
        Some(root) => {
            &&& backend::absolute(path) == backend::absolute(root)
            &&& parts_of(path).len() > 0
            &&& parts_of(path).drop_last() == parts_of(root)
            &&& owned_name(parts_of(path).last())
        },
        None => false,
    }
}

/// The two parts of a name that follows the pattern of the daemon's files.
pub fn split_name(name: &[char]) -> (parts: Option<(Vec<char>, Vec<char>)>)
    ensures
        match parts {
            Some((id, extension)) => name_parts(name@) == Some((id@, extension@)),
            None => name_parts(name@) is None,
        },
{
    let prefix = text::chars_of("clipboard-");
    if !text::starts_with_chars(name, prefix.as_slice()) {
        return None;
    }
    let rest = text::slice_chars(name, prefix.len(), name.len());
    assert(rest@ =~= name@.skip("clipboard-"@.len() as int));
    let mut at: usize = rest.len();
    assert(rest@.take(at as int) =~= rest@);
    while at > 0
        invariant
            at <= rest@.len(),
            last_index_of(rest@, '.') == last_index_of(rest@.take(at as int), '.'),
            rest@ == name@.skip("clipboard-"@.len() as int),
            text::begins(name@, "clipboard-"@),
        decreases at,
    {
        if rest[at - 1] == '.' {
            let id = text::slice_chars(rest.as_slice(), 0, at - 1);
            let extension = text::slice_chars(rest.as_slice(), at, rest.len());
            assert(id@ =~= rest@.take(at - 1));
            assert(extension@ =~= rest@.skip(at as int));
            return Some((id, extension));
        }
        assert(rest@.take(at as int).drop_last() =~= rest@.take(at - 1));
        at = at - 1;
    }
    None
}

fn is_image_extension(extension: &str) -> (result: bool)
    ensures
        result == image_extension(extension@),
{
    text::same(extension, "png") || text::same(extension, "jpg") || text::same(extension, "webp")
        || text::same(extension, "gif") || text::same(extension, "bmp") || text::same(
        extension,
        "tiff",
    ) || text::same(extension, "svg")
}

fn is_owned_name(name: &[char]) -> (result: bool)
    ensures
        result == owned_name(name@),
{
    match split_name(name) {
        Some((id, extension)) => is_uuid(text::string_of(id.as_slice()).as_str())
            && is_image_extension(text::string_of(extension.as_slice()).as_str()),
        None => false,
    }
}

fn same_parts(a: &[Vec<char>], b: &[Vec<char>], count: usize) -> (same: bool)
    requires
        count <= a@.len(),
    ensures
        same == (text::views(a@).take(count as int) == text::views(b@)),
{
    if b.len() != count {
        assert(text::views(a@).take(count as int).len() != text::views(b@).len());
        return false;
    }
    for i in 0..count
        invariant
            count <= a@.len(),
            b@.len() == count,
            forall|j: int| 0 <= j < i ==> (#[trigger] a@[j])@ == b@[j]@,
    {
        if !text::same(
            text::string_of(a[i].as_slice()).as_str(),
            text::string_of(b[i].as_slice()).as_str(),
        ) {
            assert(text::views(a@).take(count as int)[i as int] != text::views(b@)[i as int]);
            return false;
        }
    }
    assert(text::views(a@).take(count as int) =~= text::views(b@));
    true
}

/// Whether a path is that of a file that the daemon makes.
pub fn owned_path(root: &Option<String>, path: &str) -> (result: bool)
    ensures
        result == owned(text::maybe(*root), path@),
{
    let root = match root {
        Some(root) => text::chars_of(root.as_str()),
        None => {
            return false;
        },
    };
    let chars = text::chars_of(path);
    let rooted: bool = chars.len() > 0 && chars[0] == '/';
    let root_rooted: bool = root.len() > 0 && root[0] == '/';
    if rooted != root_rooted {
        return false;
    }
    let parts = path_parts(chars.as_slice());
    let above = path_parts(root.as_slice());
    let n: usize = parts.len();
    if n == 0 {
        assert(text::views(parts@).len() == 0);
        return false;
    }
    proof {
        assert(text::views(parts@).drop_last() =~= text::views(parts@).take(n - 1));
        assert(text::views(parts@).last() == parts@[n - 1]@);
    }
    same_parts(parts.as_slice(), above.as_slice(), n - 1) && is_owned_name(parts[n - 1].as_slice())
}

/// What came of deleting a file.
#[derive(Debug, Clone, Copy, PartialEq, Eq, Structural)]
pub enum Deletion {
    Deleted,
    /// There was none.
    Missing,
    Failed,
}

/// The files that the daemon has made, and the echoes that it expects.
pub struct ArtifactRegistry {
    root: Option<String>,
    records: Vec<ArtifactRecord>,
    inline_echoes: Vec<InlineEchoRecord>,
    active_selection: Option<String>,
}

/// Where the record of a path stands, or how many records there are.
pub open spec fn record_index(records: Seq<ArtifactRecord>, path: Seq<char>) -> int
    decreases records.len(),
{
    if records.len() == 0 || records[0].path@ == path {
        0
    } else {
        1 + record_index(records.drop_first(), path)
    }
}

/// The records without that of a path.
pub open spec fn without(records: Seq<ArtifactRecord>, path: Seq<char>) -> Seq<ArtifactRecord> {
    records.filter(|r: ArtifactRecord| r.path@ != path)
}

/// A path that was taken off the record is on none.
pub proof fn without_does_not_know(records: Seq<ArtifactRecord>, path: Seq<char>)
    ensures
        record_index(without(records, path), path) == without(records, path).len(),
{
    let rest = without(records, path);
    record_index_bounds(rest, path);
    if record_index(rest, path) < rest.len() {
        filter_within(
            records,
            |r: ArtifactRecord| r.path@ != path,
            record_index(rest, path),
        );
    }
}

/// The digest under which an image that is part of an entry is known: that of
/// the part of the entry that is looked at.
pub open spec fn inline_identity(mime: Seq<char>, image: Seq<u8>) -> Seq<char> {
    content::image_identity_of(mime, bytes::head_of(image, INSPECTION_LIMIT))
}

fn inline_image_identity(mime: &str, image: &[u8]) -> (identity: String)
    ensures
        identity@ == inline_identity(mime@, image@),
{
    content::image_identity(mime, bytes::first_bytes(image, INSPECTION_LIMIT).as_slice())
}

proof fn record_index_bounds(records: Seq<ArtifactRecord>, path: Seq<char>)
    ensures
        0 <= record_index(records, path) <= records.len(),
        record_index(records, path) < records.len() ==> records[record_index(records, path)].path@
            == path,
        forall|i: int| 0 <= i < record_index(records, path) ==> (#[trigger] records[i]).path@ != path,
    decreases records.len(),
{
    if records.len() > 0 && records[0].path@ != path {
        record_index_bounds(records.drop_first(), path);
        assert forall|i: int| 0 <= i < record_index(records, path) implies (
        #[trigger] records[i]).path@ != path by {
            if i > 0 {
                assert(records.drop_first()[i - 1] == records[i]);
            }
        }
    }
}

/// `record` is kept whatever the history says: an entry refers to it, it is on
/// the clipboard, or it is young.
pub open spec fn protected(
    record: ArtifactRecord,
    referenced: Set<Seq<char>>,
    active: Option<Seq<char>>,
    minimum_age: u64,
    now: u64,
) -> bool {
    ||| referenced.contains(record.path@)
    ||| active == Some(record.path@)
    ||| (if now >= record.created_at {
        now - record.created_at
    } else {
        0
    }) < minimum_age
}

impl ArtifactRegistry {
    /// The directory of the daemon's files.
    pub closed spec fn root(self) -> Option<Seq<char>> {
        text::maybe(self.root)
    }

    /// The files on record.
    pub closed spec fn records(self) -> Seq<ArtifactRecord> {
        self.records@
    }

    /// The echoes that are expected.
    pub closed spec fn echoes(self) -> Seq<InlineEchoRecord> {
        self.inline_echoes@
    }

    /// The file that is on the clipboard.
    pub closed spec fn active(self) -> Option<Seq<char>> {
        text::maybe(self.active_selection)
    }

    /// Every file on record is one that the daemon makes, and no image is expected
    /// twice.
    pub closed spec fn wf(self) -> bool {
        &&& forall|i: int|
            0 <= i < self.records@.len() ==> owned(
                self.root(),
                (#[trigger] self.records@[i]).path@,
            )
        &&& distinct_echoes(self.inline_echoes@)
    }

    /// What a registry expects is what one expects that is loaded from what was
    /// written down of it.
    pub proof fn saved_echoes_are_loaded_back(self)
        requires
            self.wf(),
        ensures
            loaded_echoes(self.echoes()) == self.echoes(),
    {
        distinct_echoes_are_loaded(self.echoes());
    }

    /// A registry that starts with what was written down before. Records of
    /// files that the daemon does not make are dropped; of several records of
    /// one file or one image the last counts.
    pub fn load(
        root: Option<String>,
        records: Vec<ArtifactRecord>,
        inline_echoes: Vec<InlineEchoRecord>,
    ) -> (registry: Self)
        ensures
            registry.wf(),
            registry.root() == text::maybe(root),
            record_views(registry.records()) == loaded(text::maybe(root), record_views(records@)),
            registry.echoes() == loaded_echoes(inline_echoes@),
            registry.active() is None,
    {
        let ghost owner = text::maybe(root);
        let ghost all = records@;
        let mut records = records;
        let mut registry = ArtifactRegistry {
            root,
            records: Vec::new(),
            inline_echoes: Vec::new(),
            active_selection: None,
        };
        let ghost mut done: Seq<ArtifactRecord> = Seq::empty();
        assert(record_views(registry.records@) =~= loaded(owner, record_views(done)));
        while records.len() > 0
            invariant
                all == done + records@,
                registry.wf(),
                registry.root() == owner,
                registry.root == root,
                owner == text::maybe(root),
                registry.active_selection is None,
                registry.inline_echoes@.len() == 0,
                record_views(registry.records@) == loaded(owner, record_views(done)),
            decreases records@.len(),
        {
            let ghost rest = records@;
            let ghost before = registry.records@;
            let record = records.remove(0);
            let ghost next = done.push(record);
            proof {
                assert(record_views(next).drop_last() =~= record_views(done));
                assert(record_views(next).last() == record@);
                assert(done + rest =~= next + records@);
            }
            let path = normal_path(record.path.as_str());
            if owned_path(&registry.root, path.as_str()) {
                registry.drop_record(path.as_str());
                let ghost others = registry.records@;
                registry.records.push(
                    ArtifactRecord {
                        path,
                        source_entry_id: record.source_entry_id,
                        image_identity: record.image_identity,
                        created_at: record.created_at,
                    },
                );
                proof {
                    views_without(before, path@);
                    assert(record_views(registry.records@) =~= record_views(others).push(
                        RecordView { path: path@, ..record@ },
                    ));
                }
            }
            proof {
                done = next;
            }
        }
        assert(done =~= all);
        let ghost echoes = inline_echoes@;
        let mut inline_echoes = inline_echoes;
        let mut kept: Vec<InlineEchoRecord> = Vec::new();
        let ghost mut seen: Seq<InlineEchoRecord> = Seq::empty();
        while inline_echoes.len() > 0
            invariant
                echoes == seen + inline_echoes@,
                kept@ == loaded_echoes(seen),
                distinct_echoes(kept@),
            decreases inline_echoes@.len(),
        {
            let ghost rest = inline_echoes@;
            let record = inline_echoes.remove(0);
            proof {
                assert(seen.push(record).drop_last() =~= seen);
                assert(seen + rest =~= seen.push(record) + inline_echoes@);
                seen = seen.push(record);
            }
            proof {
                distinct_with(kept@, record);
            }
            let mut others = drop_echo(kept, record.image_identity.as_str());
            others.push(record);
            kept = others;
        }
        assert(seen =~= echoes);
        registry.inline_echoes = kept;
        registry
    }

    fn find(&self, path: &str) -> (at: usize)
        ensures
            at == record_index(self.records@, path@),
            at <= self.records@.len(),
    {
        let mut at: usize = 0;
        assert(self.records@.skip(0) =~= self.records@);
        while at < self.records.len()
            invariant
                at <= self.records@.len(),
                record_index(self.records@, path@) == at + record_index(
                    self.records@.skip(at as int),
                    path@,
                ),
            decreases self.records@.len() - at,
        {
            if text::same(self.records[at].path.as_str(), path) {
                return at;
            }
            assert(self.records@.skip(at as int).drop_first() =~= self.records@.skip(at + 1));
            at = at + 1;
        }
        at
    }

    /// The files on record, to be written down.
    pub fn saved_records(&self) -> (records: &Vec<ArtifactRecord>)
        ensures
            records@ == self.records(),
    {
        &self.records
    }

    /// The echoes that are expected, to be written down.
    pub fn saved_echoes(&self) -> (echoes: &Vec<InlineEchoRecord>)
        ensures
            echoes@ == self.echoes(),
    {
        &self.inline_echoes
    }

    /// The file is on record.
    pub open spec fn knows(self, path: Seq<char>) -> bool {
        record_index(self.records(), path) < self.records().len()
    }

    /// Everything but the records and the file on the clipboard is as before.
    pub open spec fn same_setup(self, before: Self) -> bool {
        self.root() == before.root() && self.echoes() == before.echoes()
    }

    fn drop_record(&mut self, path: &str)
        requires
            old(self).wf(),
        ensures
            final(self).wf(),
            final(self).records() == without(old(self).records(), path@),
            final(self).root == old(self).root,
            final(self).inline_echoes == old(self).inline_echoes,
            final(self).active_selection == old(self).active_selection,
    {
        let ghost keep = |r: ArtifactRecord| r.path@ != path@;
        let mut records: Vec<ArtifactRecord> = Vec::new();
        std::mem::swap(&mut records, &mut self.records);
        let ghost all = records@;
        let mut kept: Vec<ArtifactRecord> = Vec::new();
        let ghost mut done: Seq<ArtifactRecord> = Seq::empty();
        let ghost owner = self.root();
        proof {
            reveal(Seq::filter);
        }
        while records.len() > 0
            invariant
                all == done + records@,
                kept@ == done.filter(keep),
                keep == (|r: ArtifactRecord| r.path@ != path@),
                forall|i: int| 0 <= i < all.len() ==> owned(owner, (#[trigger] all[i]).path@),
                forall|i: int| 0 <= i < kept@.len() ==> owned(owner, (#[trigger] kept@[i]).path@),
            decreases records@.len(),
        {
            let ghost rest = records@;
            let record = records.remove(0);
            proof {
                reveal(Seq::filter);
                assert(all[done.len() as int] == record);
                assert(done.push(record).drop_last() =~= done);
                assert(done + rest =~= done.push(record) + records@);
                done = done.push(record);
            }
            if !text::same(record.path.as_str(), path) {
                kept.push(record);
            }
        }
        assert(done =~= all);
        self.records = kept;
    }

    /// Puts a file that was just made on record, and takes it to be on the
    /// clipboard. Only a file in the daemon's directory with a name that it makes
    /// is put on record.
    pub fn register(
        &mut self,
        path: &str,
        source_entry_id: &str,
        mime: &str,
        image: &[u8],
        now: u64,
    ) -> (result: BackendResult<()>)
        requires
            old(self).wf(),
        ensures
            final(self).wf(),
            final(self).same_setup(*old(self)),
            match result {
                Ok(_) => {
                    let record = final(self).records().last();
                    &&& owned(old(self).root(), normal(path@))
                    &&& final(self).records().len() > 0
                    &&& final(self).records().drop_last() == without(
                        old(self).records(),
                        normal(path@),
                    )
                    &&& record.path@ == normal(path@)
                    &&& record.source_entry_id@ == source_entry_id@
                    &&& record.image_identity@ == content::image_identity_of(mime@, image@)
                    &&& record.created_at == now
                    &&& final(self).active() == Some(normal(path@))
                },
                Err(error) => {
                    &&& !owned(old(self).root(), normal(path@))
                    &&& *final(self) == *old(self)
                    &&& error.is(
                        BackendErrorKind::OperationFailed,
                        "Generated clipboard file path is outside daemon ownership"@,
                    )
                },
            },
    {
        let path = normal_path(path);
        if !owned_path(&self.root, path.as_str()) {
            return Err(
                BackendError::new(
                    BackendErrorKind::OperationFailed,
                    "Generated clipboard file path is outside daemon ownership",
                ),
            );
        }
        self.drop_record(path.as_str());
        let ghost before = self.records@;
        self.records.push(
            ArtifactRecord {
                path: path.clone(),
                source_entry_id: source_entry_id.to_owned(),
                image_identity: content::image_identity(mime, image),
                created_at: now,
            },
        );
        assert(self.records@.drop_last() =~= before);
        self.active_selection = Some(path);
        Ok(())
    }

    /// What becomes of a file that was put on record, once the record was saved, or
    /// could not be: then it is taken off again, and no file is taken to be on the
    /// clipboard.
    pub fn registered(&mut self, path: &str, saved: BackendResult<()>) -> (result: BackendResult<()>)
        requires
            old(self).wf(),
        ensures
            final(self).wf(),
            final(self).same_setup(*old(self)),
            result == saved,
            match saved {
                Ok(_) => *final(self) == *old(self),
                Err(_) => final(self).records() == without(old(self).records(), normal(path@))
                    && final(self).active() is None,
            },
    {
        match saved {
            Ok(value) => Ok(value),
            Err(error) => {
                let path = normal_path(path);
                self.drop_record(path.as_str());
                self.active_selection = None;
                Err(error)
            },
        }
    }

    /// Takes a file off the record, as if it had never been made.
    pub fn forget(&mut self, path: &str)
        requires
            old(self).wf(),
        ensures
            final(self).wf(),
            final(self).same_setup(*old(self)),
            final(self).records() == without(old(self).records(), normal(path@)),
            final(self).active() == (if old(self).active() == Some(normal(path@)) {
                None
            } else {
                old(self).active()
            }),
    {
        let path = normal_path(path);
        self.drop_record(path.as_str());
        let active: bool = match &self.active_selection {
            Some(active) => text::same(active.as_str(), path.as_str()),
            None => false,
        };
        if active {
            self.active_selection = None;
        }
    }

    /// Takes a file to be on the clipboard, if it is on record.
    pub fn activate_if_generated(&mut self, path: &str)
        requires
            old(self).wf(),
        ensures
            final(self).wf(),
            final(self).same_setup(*old(self)),
            final(self).records() == old(self).records(),
            final(self).active() == (if old(self).knows(normal(path@)) {
                Some(normal(path@))
            } else {
                None
            }),
    {
        let path = normal_path(path);
        let at = self.find(path.as_str());
        self.active_selection = if at < self.records.len() {
            Some(path)
        } else {
            None
        };
    }

    /// Takes something else to be on the clipboard.
    pub fn clear_active_selection(&mut self)
        requires
            old(self).wf(),
        ensures
            final(self).wf(),
            final(self).same_setup(*old(self)),
            final(self).records() == old(self).records(),
            final(self).active() is None,
    {
        self.active_selection = None;
    }

    /// Expects an edited image to come back as a capture. At most 128 are
    /// expected at a time; the oldest is given up first.
    pub fn register_inline_echo(
        &mut self,
        source_entry_id: &str,
        mime: &str,
        image: &[u8],
        now: u64,
    )
        requires
            old(self).wf(),
        ensures
            final(self).wf(),
            final(self).root() == old(self).root(),
            final(self).records() == old(self).records(),
            final(self).active() == old(self).active(),
            exists|record: InlineEchoRecord| #[trigger]
                is_echo(record, source_entry_id@, inline_identity(mime@, image@), now)
                    && echo_added(old(self).echoes(), record, final(self).echoes()),
    {
        let identity = inline_image_identity(mime, image);
        let mut echoes: Vec<InlineEchoRecord> = Vec::new();
        std::mem::swap(&mut echoes, &mut self.inline_echoes);
        let ghost all = echoes@;
        let mut kept = drop_echo(echoes, identity.as_str());
        let ghost others = kept@;
        let record = InlineEchoRecord {
            source_entry_id: source_entry_id.to_owned(),
            image_identity: identity,
            created_at: now,
        };
        let ghost new_record = record;
        proof {
            distinct_with(all, record);
        }
        kept.push(record);
        if kept.len() > MAX_INLINE_ECHOES {
            let mut oldest: usize = 0;
            for i in 1..kept.len()
                invariant
                    oldest < i <= kept@.len(),
                    forall|j: int|
                        0 <= j < i ==> kept@[oldest as int].created_at <= (
                        #[trigger] kept@[j]).created_at,
            {
                if kept[i].created_at < kept[oldest].created_at {
                    oldest = i;
                }
            }
            assert(is_oldest(others.push(new_record), oldest as int));
            kept.remove(oldest);
            assert(kept@ =~= others.push(new_record).remove(oldest as int));
            assert forall|i: int, j: int| 0 <= i < j < kept@.len() implies kept@[i].image_identity@
                != kept@[j].image_identity@ by {
                let from = if i < oldest {
                    i
                } else {
                    i + 1
                };
                let to = if j < oldest {
                    j
                } else {
                    j + 1
                };
                assert(kept@[i] == others.push(new_record)[from]);
                assert(kept@[j] == others.push(new_record)[to]);
            }
        }
        self.inline_echoes = kept;
        proof {
            assert(is_echo(new_record, source_entry_id@, inline_identity(mime@, image@), now));
            assert(others == other_echoes(all, new_record.image_identity@));
        }
    }

    /// The entry that an image echoes, unless it is the image of that entry
    /// itself.
    pub open spec fn echoed(self, identity: Seq<char>, entry_id: Seq<char>) -> Option<Seq<char>> {
        let at = echo_index(self.echoes(), identity);
        if at < self.echoes().len() && self.echoes()[at].source_entry_id@ != entry_id {
            Some(self.echoes()[at].source_entry_id@)
        } else {
            None
        }
    }

    /// The entry that an image echoes, if it is one that came back.
    pub fn match_inline_echo(&self, mime: &str, image: &[u8], entry_id: &str) -> (source: Option<
        String,
    >)
        ensures
            match source {
                Some(source) => self.echoed(inline_identity(mime@, image@), entry_id@) == Some(
                    source@,
                ),
                None => self.echoed(inline_identity(mime@, image@), entry_id@) is None,
            },
    {
        let identity = inline_image_identity(mime, image);
        self.match_identity(identity.as_str(), entry_id)
    }

    /// The same, for an image that is known by its digest.
    pub fn match_identity(&self, identity: &str, entry_id: &str) -> (source: Option<String>)
        ensures
            match source {
                Some(source) => self.echoed(identity@, entry_id@) == Some(source@),
                None => self.echoed(identity@, entry_id@) is None,
            },
    {
        let mut at: usize = 0;
        assert(self.inline_echoes@.skip(0) =~= self.inline_echoes@);
        while at < self.inline_echoes.len()
            invariant
                at <= self.inline_echoes@.len(),
                echo_index(self.inline_echoes@, identity@) == at + echo_index(
                    self.inline_echoes@.skip(at as int),
                    identity@,
                ),
            decreases self.inline_echoes@.len() - at,
        {
            if text::same(self.inline_echoes[at].image_identity.as_str(), identity) {
                if text::same(self.inline_echoes[at].source_entry_id.as_str(), entry_id) {
                    return None;
                }
                return Some(self.inline_echoes[at].source_entry_id.clone());
            }
            assert(self.inline_echoes@.skip(at as int).drop_first()
                =~= self.inline_echoes@.skip(at + 1));
            at = at + 1;
        }
        None
    }

    /// The entry from which a file was made, if the file still holds what was
    /// put into it.
    pub open spec fn made_from(
        self,
        path: Seq<char>,
        regular: bool,
        size: u64,
        identity: Option<Seq<char>>,
    ) -> Option<Seq<char>> {
        let at = record_index(self.records(), path);
        if at < self.records().len() && regular && size <= MAX_WAYLAND_SELECTION_BYTES && identity
            == Some(self.records()[at].image_identity@) {
            Some(self.records()[at].source_entry_id@)
        } else {
            None
        }
    }

    /// The entry from which the image that another entry names was made. `image`
    /// is what the file holds, where it could be read.
    pub fn match_local_image(
        &self,
        source: &LocalImageSource,
        regular: bool,
        size: u64,
        image: Option<&[u8]>,
    ) -> (entry: Option<String>)
        ensures
            ({
                let found = if valid_utf8(source.path@) {
                    self.made_from(
                        normal(decode_utf8(source.path@)),
                        regular,
                        size,
                        match image {
                            Some(image) => Some(
                                content::image_identity_of(source.mime@, image@),
                            ),
                            None => None,
                        },
                    )
                } else {
                    None
                };
                match entry {
                    Some(entry) => found == Some(entry@),
                    None => found is None,
                }
            }),
    {
        let path = match text::text_of(source.path.as_slice()) {
            Some(path) => normal_path(path),
            None => {
                return None;
            },
        };
        let at = self.find(path.as_str());
        if at == self.records.len() || !regular || size > MAX_WAYLAND_SELECTION_BYTES {
            return None;
        }
        let image = match image {
            Some(image) => image,
            None => {
                return None;
            },
        };
        let identity = content::image_identity(source.mime.as_str(), image);
        if text::same(identity.as_str(), self.records[at].image_identity.as_str()) {
            Some(self.records[at].source_entry_id.clone())
        } else {
            None
        }
    }

    /// The file on record that a line refers to, given the path that the line
    /// stands for.
    pub open spec fn referred(self, path: Option<Seq<u8>>) -> Option<Seq<char>> {
        match path {
            Some(path) => if valid_utf8(path) && self.knows(normal(decode_utf8(path))) {
                Some(normal(decode_utf8(path)))
            } else {
                None
            },
            None => None,
        }
    }

    /// The file on record that a path spells.
    pub fn refer(&self, path: Option<Vec<u8>>) -> (found: Option<String>)
        ensures
            ({
                let referred = self.referred(
                    match path {
                        Some(path) => Some(path@),
                        None => None,
                    },
                );
                match found {
                    Some(found) => referred == Some(found@),
                    None => referred is None,
                }
            }),
    {
        let path = match path {
            Some(path) => path,
            None => {
                return None;
            },
        };
        let spelled = match text::text_of(path.as_slice()) {
            Some(spelled) => normal_path(spelled),
            None => {
                return None;
            },
        };
        let at = self.find(spelled.as_str());
        if at < self.records.len() {
            Some(spelled)
        } else {
            None
        }
    }

    /// The file on record that a line refers to.
    pub open spec fn line_reference(self, line: Seq<u8>) -> Option<Seq<char>> {
        if valid_utf8(line) {
            self.referred(content::url_path(text::trimmed(decode_utf8(line))))
        } else {
            None
        }
    }

    /// The files on record that an entry refers to. A line that is too long to
    /// look at counts as a reference to all of them.
    pub open spec fn references(self, entry: Seq<u8>) -> Set<Seq<char>>
        decreases entry.len(),
        via Self::references_decreases
    {
        if entry.len() == 0 {
            Set::empty()
        } else {
            let end = line_end(entry, 0);
            if end == MAX_LINE_BYTES && entry[end - 1] != 0x0a {
                all_paths(self.records())
            } else {
                let rest = self.references(entry.skip(end));
                match self.line_reference(entry.take(end)) {
                    Some(path) => rest.insert(path),
                    None => rest,
                }
            }
        }
    }

    #[via_fn]
    proof fn references_decreases(self, entry: Seq<u8>) {
        line_end_bounds(entry, 0);
    }

    /// The files on record that an entry refers to: every line is looked at, not
    /// only those that a preview shows.
    pub fn references_in(&self, entry: &[u8]) -> (references: Vec<String>)
        ensures
            projection::paths_of(references@) == (if self.records().len() == 0 {
                Set::empty()
            } else {
                self.references(entry@)
            }),
    {
        let mut references: Vec<String> = Vec::new();
        if self.records.len() == 0 {
            return references;
        }
        let mut from: usize = 0;
        assert(entry@.skip(0) =~= entry@);
        assert(projection::paths_of(references@).union(self.references(entry@))
            =~= self.references(entry@));
        while from < entry.len()
            invariant
                from <= entry@.len(),
                self.references(entry@) == projection::paths_of(references@).union(
                    self.references(entry@.skip(from as int)),
                ),
                projection::paths_of(references@).subset_of(all_paths(self.records())),
                self.records@.len() > 0,
            decreases entry@.len() - from,
        {
            let ghost rest = entry@.skip(from as int);
            proof {
                line_end_bounds(rest, 0);
            }
            let mut end: usize = from;
            let limit: usize = if entry.len() - from <= MAX_LINE_BYTES {
                entry.len()
            } else {
                from + MAX_LINE_BYTES
            };
            let mut ended: bool = false;
            while end < limit && !ended
                invariant
                    from <= end <= limit <= entry@.len(),
                    limit - from <= MAX_LINE_BYTES,
                    limit == entry@.len() || limit - from == MAX_LINE_BYTES,
                    rest == entry@.skip(from as int),
                    ended ==> end > from && entry@[end - 1] == 0x0a && line_end(rest, 0) == end
                        - from,
                    !ended ==> line_end(rest, 0) == line_end(rest, end - from),
                decreases limit - end,
            {
                if entry[end] == 0x0a {
                    ended = true;
                }
                end = end + 1;
            }
            let line = bytes::copy_range(entry, from, end);
            assert(line@ =~= rest.take(end - from));
            assert(line_end(rest, 0) == end - from);
            if end - from == MAX_LINE_BYTES && entry[end - 1] != 0x0a {
                let all = self.paths();
                proof {
                    assert(self.references(rest) == all_paths(self.records()));
                    assert(projection::paths_of(references@).union(all_paths(self.records()))
                        =~= all_paths(self.records()));
                }
                return all;
            }
            let path = match text::text_of(line.as_slice()) {
                Some(spelled) => content::local_path(text::trim(spelled).as_str()),
                None => None,
            };
            let ghost before = references@;
            assert(rest.skip(end - from) =~= entry@.skip(end as int));
            match self.refer(path) {
                Some(found) => {
                    proof {
                        known_path_is_listed(self.records(), found@);
                    }
                    references.push(found);
                    proof {
                        assert(references@.drop_last() =~= before);
                        assert(projection::paths_of(before).union(
                            self.references(entry@.skip(end as int)).insert(found@),
                        ) =~= projection::paths_of(references@).union(
                            self.references(entry@.skip(end as int)),
                        ));
                    }
                },
                None => {},
            }
            from = end;
        }
        assert(self.references(entry@.skip(from as int)) =~= Set::empty());
        assert(projection::paths_of(references@).union(Set::empty()) =~= projection::paths_of(
            references@,
        ));
        references
    }

    fn paths(&self) -> (paths: Vec<String>)
        ensures
            projection::paths_of(paths@) == all_paths(self.records()),
    {
        let mut paths: Vec<String> = Vec::new();
        assert(self.records@.take(0) =~= Seq::empty());
        for i in 0..self.records.len()
            invariant
                projection::paths_of(paths@) == all_paths(self.records@.take(i as int)),
        {
            let ghost before = paths@;
            paths.push(self.records[i].path.clone());
            assert(paths@.drop_last() =~= before);
            assert(self.records@.take(i + 1).drop_last() =~= self.records@.take(i as int));
        }
        assert(self.records@.take(self.records@.len() as int) =~= self.records@);
        paths
    }

    fn unprotected(&self, referenced: &StringHashSet, minimum_age: u64, now: u64) -> (paths: Vec<
        String,
    >)
        ensures
            path_views(paths@) == self.records().filter(
                |r: ArtifactRecord|
                    !protected(r, referenced@, self.active(), minimum_age, now),
            ).map_values(|r: ArtifactRecord| r.path@),
    {
        let ghost keep = |r: ArtifactRecord|
            !protected(r, referenced@, self.active(), minimum_age, now);
        let ghost path_of = |r: ArtifactRecord| r.path@;
        let ghost all = self.records@;
        let mut paths: Vec<String> = Vec::new();
        proof {
            reveal(Seq::filter);
            assert(all.take(0).filter(keep).map_values(path_of) =~= Seq::empty());
            assert(path_views(paths@) =~= Seq::empty());
        }
        for i in 0..self.records.len()
            invariant
                all == self.records@,
                keep == (|r: ArtifactRecord|
                    !protected(r, referenced@, self.active(), minimum_age, now)),
                path_of == (|r: ArtifactRecord| r.path@),
                path_views(paths@) == all.take(i as int).filter(keep).map_values(path_of),
        {
            let ghost before = paths@;
            let record = &self.records[i];
            proof {
                reveal(Seq::filter);
                assert(all.take(i + 1).drop_last() =~= all.take(i as int));
                assert(all.take(i + 1).last() == all[i as int]);
            }
            let active: bool = match &self.active_selection {
                Some(active) => text::same(active.as_str(), record.path.as_str()),
                None => false,
            };
            let age: u64 = if now >= record.created_at {
                now - record.created_at
            } else {
                0
            };
            if !(referenced.contains(record.path.as_str()) || active || age < minimum_age) {
                paths.push(record.path.clone());
                proof {
                    assert(path_views(paths@) =~= path_views(before).push(record.path@));
                    assert(all.take(i as int).filter(keep).push(*record).map_values(path_of)
                        =~= all.take(i as int).filter(keep).map_values(path_of).push(
                        record.path@,
                    ));
                }
            }
        }
        assert(all.take(all.len() as int) =~= all);
        paths
    }

    /// The files to delete: those on record to which no entry refers, that are
    /// not on the clipboard, and that are not young.
    pub fn reconcile(&self, referenced: &StringHashSet, now: u64) -> (paths: Vec<String>)
        requires
            self.wf(),
        ensures
            forall|i: int| 0 <= i < paths@.len() ==> owned(self.root(), (#[trigger] paths@[i])@),
            path_views(paths@) == self.records().filter(
                |r: ArtifactRecord|
                    !protected(r, referenced@, self.active(), PRUNE_GRACE_SECONDS, now),
            ).map_values(|r: ArtifactRecord| r.path@),
    {
        let paths = self.unprotected(referenced, PRUNE_GRACE_SECONDS, now);
        proof {
            let keep = |r: ArtifactRecord|
                !protected(r, referenced@, self.active(), PRUNE_GRACE_SECONDS, now);
            let kept = self.records().filter(keep);
            assert(path_views(paths@).len() == kept.len());
            assert forall|i: int| 0 <= i < paths@.len() implies owned(
                self.root(),
                (#[trigger] paths@[i])@,
            ) by {
                filter_within(self.records(), keep, i);
                assert(path_views(paths@)[i] == kept[i].path@);
            }
        }
        paths
    }

    /// Forgets the clipboard and all echoes, and gives all files to delete.
    pub fn clear_all(&mut self, now: u64) -> (paths: Vec<String>)
        requires
            old(self).wf(),
        ensures
            final(self).wf(),
            final(self).root() == old(self).root(),
            final(self).records() == old(self).records(),
            final(self).echoes().len() == 0,
            final(self).active() is None,
            path_views(paths@) == old(self).records().map_values(|r: ArtifactRecord| r.path@),
    {
        self.active_selection = None;
        self.inline_echoes = Vec::new();
        let nothing = StringHashSet::new();
        let paths = self.unprotected(&nothing, 0, now);
        proof {
            let keep = |r: ArtifactRecord|
                !protected(r, nothing@, self.active(), 0, now);
            assert forall|i: int| 0 <= i < self.records().len() implies keep(
                #[trigger] self.records()[i],
            ) by {}
            filter_all(self.records(), keep);
        }
        paths
    }

    /// Takes note of what came of deleting a file: it is forgotten, unless it is
    /// still there. True means that it was deleted.
    pub fn prune(&mut self, path: &str, outcome: Deletion) -> (removed: bool)
        requires
            old(self).wf(),
        ensures
            final(self).wf(),
            final(self).same_setup(*old(self)),
            final(self).active() == old(self).active(),
            final(self).records() == (if outcome is Failed {
                old(self).records()
            } else {
                without(old(self).records(), path@)
            }),
            removed == (outcome is Deleted),
    {
        match outcome {
            Deletion::Failed => false,
            Deletion::Missing => {
                self.drop_record(path);
                false
            },
            Deletion::Deleted => {
                self.drop_record(path);
                true
            },
        }
    }
}

/// The views of a list of paths.
pub open spec fn path_views(paths: Seq<String>) -> Seq<Seq<char>> {
    Seq::new(paths.len(), |i: int| paths[i]@)
}

/// The paths of some records.
pub open spec fn all_paths(records: Seq<ArtifactRecord>) -> Set<Seq<char>>
    decreases records.len(),
{
    if records.len() == 0 {
        Set::empty()
    } else {
        all_paths(records.drop_last()).insert(records.last().path@)
    }
}

proof fn known_path_is_listed(records: Seq<ArtifactRecord>, path: Seq<char>)
    requires
        record_index(records, path) < records.len(),
    ensures
        all_paths(records).contains(path),
{
    record_index_bounds(records, path);
    listed(records, record_index(records, path));
}

proof fn listed(records: Seq<ArtifactRecord>, i: int)
    requires
        0 <= i < records.len(),
    ensures
        all_paths(records).contains(records[i].path@),
    decreases records.len(),
{
    if i < records.len() - 1 {
        listed(records.drop_last(), i);
    }
}

proof fn filter_within<T>(s: Seq<T>, keep: spec_fn(T) -> bool, k: int)
    requires
        0 <= k < s.filter(keep).len(),
    ensures
        exists|i: int| 0 <= i < s.len() && s[i] == s.filter(keep)[k],
    decreases s.len(),
{
    reveal(Seq::filter);
    if s.len() > 0 {
        let before = s.drop_last().filter(keep);
        if k < before.len() {
            filter_within(s.drop_last(), keep, k);
            let i = choose|i: int| 0 <= i < s.drop_last().len() && s.drop_last()[i] == before[k];
            assert(s[i] == s.filter(keep)[k]);
        } else {
            assert(s[s.len() - 1] == s.filter(keep)[k]);
        }
    }
}

proof fn filter_all<T>(s: Seq<T>, keep: spec_fn(T) -> bool)
    requires
        forall|i: int| 0 <= i < s.len() ==> keep(#[trigger] s[i]),
    ensures
        s.filter(keep) == s,
    decreases s.len(),
{
    reveal(Seq::filter);
    if s.len() > 0 {
        assert forall|i: int| 0 <= i < s.drop_last().len() implies keep(
            #[trigger] s.drop_last()[i],
        ) by {
            assert(s.drop_last()[i] == s[i]);
        }
        filter_all(s.drop_last(), keep);
        assert(s.drop_last().push(s.last()) =~= s);
    }
}

/// `record` expects this image.
pub open spec fn is_echo(
    record: InlineEchoRecord,
    source_entry_id: Seq<char>,
    identity: Seq<char>,
    now: u64,
) -> bool {
    &&& record.source_entry_id@ == source_entry_id
    &&& record.image_identity@ == identity
    &&& record.created_at == now
}

/// The echoes of other images.
pub open spec fn other_echoes(echoes: Seq<InlineEchoRecord>, identity: Seq<char>) -> Seq<
    InlineEchoRecord,
> {
    echoes.filter(|r: InlineEchoRecord| r.image_identity@ != identity)
}

fn drop_echo(echoes: Vec<InlineEchoRecord>, identity: &str) -> (kept: Vec<InlineEchoRecord>)
    ensures
        kept@ == other_echoes(echoes@, identity@),
{
    let ghost keep = |r: InlineEchoRecord| r.image_identity@ != identity@;
    let ghost all = echoes@;
    let mut echoes = echoes;
    let mut kept: Vec<InlineEchoRecord> = Vec::new();
    let ghost mut done: Seq<InlineEchoRecord> = Seq::empty();
    proof {
        reveal(Seq::filter);
    }
    while echoes.len() > 0
        invariant
            all == done + echoes@,
            kept@ == done.filter(keep),
            keep == (|r: InlineEchoRecord| r.image_identity@ != identity@),
        decreases echoes@.len(),
    {
        let ghost rest = echoes@;
        let record = echoes.remove(0);
        proof {
            reveal(Seq::filter);
            assert(done.push(record).drop_last() =~= done);
            assert(done + rest =~= done.push(record) + echoes@);
            done = done.push(record);
        }
        if !text::same(record.image_identity.as_str(), identity) {
            kept.push(record);
        }
    }
    assert(done =~= all);
    kept
}

/// The echoes in a list; of several for one image the last counts.
pub open spec fn loaded_echoes(echoes: Seq<InlineEchoRecord>) -> Seq<InlineEchoRecord>
    decreases echoes.len(),
{
    if echoes.len() == 0 {
        Seq::empty()
    } else {
        other_echoes(
            loaded_echoes(echoes.drop_last()),
            echoes.last().image_identity@,
        ).push(echoes.last())
    }
}

/// No image is expected twice.
pub open spec fn distinct_echoes(echoes: Seq<InlineEchoRecord>) -> bool {
    forall|i: int, j: int|
        0 <= i < j < echoes.len() ==> echoes[i].image_identity@ != echoes[j].image_identity@
}

/// With one more image, in place of the same one, none is expected twice.
proof fn distinct_with(echoes: Seq<InlineEchoRecord>, record: InlineEchoRecord)
    requires
        distinct_echoes(echoes),
    ensures
        distinct_echoes(other_echoes(echoes, record.image_identity@).push(record)),
{
    let identity = record.image_identity@;
    let others = other_echoes(echoes, identity);
    others_are_distinct(echoes, identity);
    assert forall|i: int, j: int| 0 <= i < j < others.push(record).len() implies others.push(
        record,
    )[i].image_identity@ != others.push(record)[j].image_identity@ by {
        if j == others.len() {
            assert(others.push(record)[i] == others[i]);
            assert(others[i].image_identity@ != identity);
        }
    }
}

proof fn others_are_distinct(echoes: Seq<InlineEchoRecord>, identity: Seq<char>)
    requires
        distinct_echoes(echoes),
    ensures
        distinct_echoes(other_echoes(echoes, identity)),
        forall|i: int|
            0 <= i < other_echoes(echoes, identity).len() ==> (#[trigger] other_echoes(
                echoes,
                identity,
            )[i]).image_identity@ != identity && echoes.contains(other_echoes(echoes, identity)[i]),
    decreases echoes.len(),
{
    reveal(Seq::filter);
    if echoes.len() > 0 {
        let before = echoes.drop_last();
        let last = echoes.last();
        assert forall|i: int, j: int| 0 <= i < j < before.len() implies before[i].image_identity@
            != before[j].image_identity@ by {
            assert(echoes[i].image_identity@ != echoes[j].image_identity@);
        }
        others_are_distinct(before, identity);
        let some = other_echoes(before, identity);
        let all = other_echoes(echoes, identity);
        assert(all == if last.image_identity@ != identity {
            some.push(last)
        } else {
            some
        });
        assert forall|i: int| 0 <= i < some.len() implies echoes.contains(#[trigger] some[i])
            && some[i].image_identity@ != last.image_identity@ by {
            let k = choose|k: int| 0 <= k < before.len() && before[k] == some[i];
            assert(echoes[k] == some[i]);
            assert(echoes[k].image_identity@ != echoes[echoes.len() - 1].image_identity@);
        }
        assert(echoes[echoes.len() - 1] == last);
        assert forall|i: int| 0 <= i < all.len() implies (#[trigger] all[i]).image_identity@
            != identity && echoes.contains(all[i]) by {
            if i < some.len() {
                assert(all[i] == some[i]);
            }
        }
        assert forall|i: int, j: int| 0 <= i < j < all.len() implies all[i].image_identity@
            != all[j].image_identity@ by {
            assert(all[i] == some[i]);
            if j < some.len() {
                assert(all[j] == some[j]);
            }
        }
    }
}

proof fn others_are_all(echoes: Seq<InlineEchoRecord>, identity: Seq<char>)
    requires
        forall|i: int| 0 <= i < echoes.len() ==> (#[trigger] echoes[i]).image_identity@ != identity,
    ensures
        other_echoes(echoes, identity) == echoes,
    decreases echoes.len(),
{
    reveal(Seq::filter);
    if echoes.len() > 0 {
        let before = echoes.drop_last();
        assert forall|i: int| 0 <= i < before.len() implies (#[trigger] before[i]).image_identity@
            != identity by {
            assert(before[i] == echoes[i]);
        }
        others_are_all(before, identity);
        assert(echoes[echoes.len() - 1].image_identity@ != identity);
        assert(before.push(echoes.last()) =~= echoes);
    } else {
        assert(other_echoes(echoes, identity) =~= echoes);
    }
}

proof fn distinct_echoes_are_loaded(echoes: Seq<InlineEchoRecord>)
    requires
        distinct_echoes(echoes),
    ensures
        loaded_echoes(echoes) == echoes,
    decreases echoes.len(),
{
    if echoes.len() > 0 {
        let before = echoes.drop_last();
        assert forall|i: int, j: int| 0 <= i < j < before.len() implies before[i].image_identity@
            != before[j].image_identity@ by {
            assert(echoes[i].image_identity@ != echoes[j].image_identity@);
        }
        distinct_echoes_are_loaded(before);
        let last = echoes.last().image_identity@;
        assert forall|i: int| 0 <= i < before.len() implies (#[trigger] before[i]).image_identity@
            != last by {
            assert(echoes[i].image_identity@ != echoes[echoes.len() - 1].image_identity@);
        }
        others_are_all(before, last);
        assert(before.push(echoes.last()) =~= echoes);
    } else {
        assert(echoes =~= Seq::empty());
    }
}

/// What a record says.
pub struct RecordView {
    pub path: Seq<char>,
    pub source_entry_id: Seq<char>,
    pub image_identity: Seq<char>,
    pub created_at: u64,
}

impl View for ArtifactRecord {
    type V = RecordView;

    open spec fn view(&self) -> RecordView {
        RecordView {
            path: self.path@,
            source_entry_id: self.source_entry_id@,
            image_identity: self.image_identity@,
            created_at: self.created_at,
        }
    }
}

/// What some records say.
pub open spec fn record_views(records: Seq<ArtifactRecord>) -> Seq<RecordView> {
    records.map_values(|r: ArtifactRecord| r@)
}

/// The records in a list of files that the daemon makes, under the one spelling
/// of their paths; of several for one file the last counts.
pub open spec fn loaded(root: Option<Seq<char>>, records: Seq<RecordView>) -> Seq<RecordView>
    decreases records.len(),
{
    if records.len() == 0 {
        Seq::empty()
    } else {
        let before = loaded(root, records.drop_last());
        let path = normal(records.last().path);
        if owned(root, path) {
            before.filter(|r: RecordView| r.path != path).push(
                RecordView { path, ..records.last() },
            )
        } else {
            before
        }
    }
}

proof fn views_without(records: Seq<ArtifactRecord>, path: Seq<char>)
    ensures
        record_views(without(records, path)) == record_views(records).filter(
            |r: RecordView| r.path != path,
        ),
    decreases records.len(),
{
    reveal(Seq::filter);
    let keep = |r: ArtifactRecord| r.path@ != path;
    let keep_view = |r: RecordView| r.path != path;
    if records.len() == 0 {
        assert(record_views(records) =~= Seq::empty());
        assert(record_views(without(records, path)) =~= Seq::empty());
    } else {
        views_without(records.drop_last(), path);
        assert(record_views(records).drop_last() =~= record_views(records.drop_last()));
        assert(record_views(records).last() == records.last()@);
        if keep(records.last()) {
            assert(record_views(without(records.drop_last(), path).push(records.last()))
                =~= record_views(without(records.drop_last(), path)).push(records.last()@));
        }
    }
}

/// None of the echoes is older than the one at `at`.
pub open spec fn is_oldest(echoes: Seq<InlineEchoRecord>, at: int) -> bool {
    &&& 0 <= at < echoes.len()
    &&& forall|i: int|
        0 <= i < echoes.len() ==> echoes[at].created_at <= (#[trigger] echoes[i]).created_at
}

/// `after` is `before` with `record` in place of what was expected for the same
/// image; where that is too many, without one that is oldest.
pub open spec fn echo_added(
    before: Seq<InlineEchoRecord>,
    record: InlineEchoRecord,
    after: Seq<InlineEchoRecord>,
) -> bool {
    let all = other_echoes(before, record.image_identity@).push(record);
    if all.len() > MAX_INLINE_ECHOES {
        exists|at: int| #[trigger] is_oldest(all, at) && after == all.remove(at)
    } else {
        after == all
    }
}

/// Where the echo with this digest stands, or how many there are.
pub open spec fn echo_index(echoes: Seq<InlineEchoRecord>, identity: Seq<char>) -> int
    decreases echoes.len(),
{
    if echoes.len() == 0 || echoes[0].image_identity@ == identity {
        0
    } else {
        1 + echo_index(echoes.drop_first(), identity)
    }
}

/// Where a line ends that is looked at from `at` on: behind the next line feed,
/// but after at most 32 KiB.
pub open spec fn line_end(entry: Seq<u8>, at: int) -> int
    decreases entry.len() - at,
{
    if at >= entry.len() || at >= MAX_LINE_BYTES {
        at
    } else if entry[at] == 0x0a {
        at + 1
    } else {
        line_end(entry, at + 1)
    }
}

proof fn line_end_bounds(entry: Seq<u8>, at: int)
    requires
        0 <= at <= entry.len(),
        at <= MAX_LINE_BYTES,
    ensures
        at <= line_end(entry, at) <= entry.len(),
        line_end(entry, at) <= MAX_LINE_BYTES,
        at < entry.len() && at < MAX_LINE_BYTES ==> line_end(entry, at) > at,
    decreases entry.len() - at,
{
    if at < entry.len() && at < MAX_LINE_BYTES && entry[at] != 0x0a {
        line_end_bounds(entry, at + 1);
    }
}

} // verus!
