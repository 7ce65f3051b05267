//! Which of the offered MIME types is captured.
use crate::ringboard::ipc;
use crate::text;
use clipboard_history_client_sdk::watcher_utils::best_target::BestMimeTypeFinder;
use clipboard_history_core::protocol::MimeType;
use vstd::prelude::*;
use vstd::string::*;
use vstd::utf8::*;

verus! {

/// The most offers that are kept at a time.
pub const MAX_OFFERS: usize = 64;

/// The most seats that are listened to.
pub const MAX_SEATS: usize = 16;

/// The most MIME types of one offer.
pub const MAX_OFFERED_MIMES: usize = 64;

/// The most bytes that the MIME types of one offer take together.
pub const MAX_OFFERED_BYTES: usize = 8192;

/// `BestMimeTypeFinder` of the Ringboard SDK: a collection of offered MIME types
/// that keeps the preferred one of each kind.
#[verifier::external_type_specification]
#[verifier::external_body]
#[verifier::reject_recursive_types(Id)]
pub struct ExBestMimeTypeFinder<Id>(BestMimeTypeFinder<Id>);

/// The MIME type that is kept of each kind, the preferred kinds first.
pub uninterp spec fn kept(finder: BestMimeTypeFinder<String>) -> Seq<Option<Seq<char>>>;

/// A password manager has marked the offer as secret.
pub uninterp spec fn secret(finder: BestMimeTypeFinder<String>) -> bool;

/// A MIME type that can be offered: printable ASCII of 1 to 96 bytes.
pub open spec fn offerable(mime: Seq<char>) -> bool {
    &&& 1 <= mime.len() <= 96
    &&& forall|i: int| 0 <= i < mime.len() ==> ' ' <= #[trigger] mime[i] <= '~'
}

/// The mark that password managers put on an offer.
pub open spec fn secret_mark() -> Seq<char> {
    "x-kde-passwordManagerHint"@
}

/// The kind of a MIME type: plain text, image, special, Chromium data, other
/// text, or anything else that begins with a small letter. What is of no kind is
/// not captured.
pub open spec fn kind_of(mime: Seq<char>) -> Option<int> {
    if ipc::plaintext(mime) {
        Some(0)
    } else if text::begins(mime, "image/"@) {
        Some(1)
    } else if text::begins(mime, "x-special/"@) {
        Some(2)
    } else if mime == "chromium/x-web-custom-data"@ {
        Some(3)
    } else if text::begins(mime, "chromium/x-internal"@) {
        None
    } else if text::begins(mime, "text/"@) {
        Some(4)
    } else if mime == secret_mark() {
        None
    } else if 'a' <= mime[0] <= 'z' {
        Some(5)
    } else {
        None
    }
}

/// What is kept after `mime` was offered: the first of each kind, or the first
/// without parameters after one with.
pub open spec fn kept_after(slots: Seq<Option<Seq<char>>>, mime: Seq<char>) -> Seq<
    Option<Seq<char>>,
> {
    match kind_of(mime) {
        Some(kind) => match slots[kind] {
            None => slots.update(kind, Some(mime)),
            Some(present) => if present.contains(';') && !mime.contains(';') {
                slots.update(kind, Some(mime))
            } else {
                slots
            },
        },
        None => slots,
    }
}

/// The place of the first MIME type that is kept, or the number of places.
pub open spec fn first_kept(slots: Seq<Option<Seq<char>>>) -> int
    decreases slots.len(),
{
    if slots.len() == 0 || slots[0] is Some {
        0
    } else {
        1 + first_kept(slots.drop_first())
    }
}

/// `BestMimeTypeFinder::default`: nothing has been offered.
#[verifier::external_body]
fn new_finder() -> (finder: BestMimeTypeFinder<String>)
    ensures
        kept(finder) == Seq::new(6, |i: int| None::<Seq<char>>),
        !secret(finder),
{
    BestMimeTypeFinder::default()
}

/// `BestMimeTypeFinder::add_mime` with the MIME type as its own identifier: keeps
/// it where it is preferred to what is kept of its kind, and takes note of a
/// password manager's mark.
#[verifier::external_body]
fn add_mime(finder: &mut BestMimeTypeFinder<String>, mime: String)
    requires
        offerable(mime@),
    ensures
        kept(*final(finder)) == kept_after(kept(*old(finder)), mime@),
        secret(*final(finder)) == (secret(*old(finder)) || mime@ == secret_mark()),
{
    let name = MimeType::from(&mime).expect("at most 96 bytes");
    finder.add_mime(&name, mime);
}

/// `BestMimeTypeFinder::pop_best`: takes out the first MIME type that is kept,
/// none where a password manager has marked the offer.
#[verifier::external_body]
fn pop_best(finder: &mut BestMimeTypeFinder<String>) -> (best: Option<String>)
    ensures
        secret(*final(finder)) == secret(*old(finder)),
        ({
            let slots = kept(*old(finder));
            let at = first_kept(slots);
            if secret(*old(finder)) || at == slots.len() {
                best is None && kept(*final(finder)) == slots
            } else {
                kept(*final(finder)) == slots.update(at, None) && (best matches Some(mime) && Some(
                    mime@,
                ) == slots[at])
            }
        }),
{
    finder.pop_best()
}

/// The MIME types of one offer.
pub struct OfferedMimes {
    finder: BestMimeTypeFinder<String>,
    count: usize,
    bytes: usize,
    rejected: bool,
}

/// What is known of an offer.
pub struct OfferView {
    pub slots: Seq<Option<Seq<char>>>,
    pub secret: bool,
    pub count: nat,
    pub bytes: nat,
    pub rejected: bool,
}

impl View for OfferedMimes {
    type V = OfferView;

    closed spec fn view(&self) -> OfferView {
        OfferView {
            slots: kept(self.finder),
            secret: secret(self.finder),
            count: self.count as nat,
            bytes: self.bytes as nat,
            rejected: self.rejected,
        }
    }
}

impl OfferView {
    /// Nothing has been offered.
    pub open spec fn empty() -> Self {
        OfferView {
            slots: Seq::new(6, |i: int| None),
            secret: false,
            count: 0,
            bytes: 0,
            rejected: false,
        }
    }

    /// The offer with `mime` added is one that is not looked at.
    pub open spec fn rejects(self, mime: Seq<char>) -> bool {
        ||| self.rejected
        ||| !offerable(mime)
        ||| self.count + 1 > MAX_OFFERED_MIMES
        ||| self.bytes + mime.len() > MAX_OFFERED_BYTES
    }

    /// The offer with `mime` added. An offer that was rejected stays so.
    pub open spec fn with(self, mime: Seq<char>) -> Self {
        if self.rejects(mime) {
            OfferView { rejected: true, ..self }
        } else {
            OfferView {
                slots: kept_after(self.slots, mime),
                secret: self.secret || mime == secret_mark(),
                count: self.count + 1,
                bytes: self.bytes + mime.len(),
                rejected: false,
            }
        }
    }

    /// The MIME type to capture next.
    pub open spec fn best(self) -> Option<Seq<char>> {
        let at = first_kept(self.slots);
        if self.rejected || self.secret || at == self.slots.len() {
            None
        } else {
            self.slots[at]
        }
    }

    /// The offer after that was taken.
    pub open spec fn without_best(self) -> Self {
        let at = first_kept(self.slots);
        if self.rejected || self.secret || at == self.slots.len() {
            self
        } else {
            OfferView { slots: self.slots.update(at, None), ..self }
        }
    }

    /// The offer with several MIME types added.
    pub open spec fn with_all(self, mimes: Seq<Seq<char>>) -> Self
        decreases mimes.len(),
    {
        if mimes.len() == 0 {
            self
        } else {
            self.with_all(mimes.drop_last()).with(mimes.last())
        }
    }
}

/// Printable ASCII is one byte for each character.
proof fn ascii_length(mime: Seq<char>)
    requires
        forall|i: int| 0 <= i < mime.len() ==> ' ' <= #[trigger] mime[i] <= '~',
    ensures
        encode_utf8(mime).len() == mime.len(),
{
    assert(is_ascii_chars(mime));
    is_ascii_chars_encode_utf8(mime);
}

proof fn first_kept_bounds(slots: Seq<Option<Seq<char>>>)
    ensures
        0 <= first_kept(slots) <= slots.len(),
        first_kept(slots) < slots.len() ==> slots[first_kept(slots)] is Some,
    decreases slots.len(),
{
    if slots.len() > 0 && slots[0] is None {
        first_kept_bounds(slots.drop_first());
    }
}

/// Whether a MIME type can be offered.
fn is_offerable(value: &str) -> (result: bool)
    ensures
        result == offerable(value@),
{
    let chars = text::chars_of(value);
    if chars.len() == 0 || chars.len() > 96 {
        return false;
    }
    for i in 0..chars.len()
        invariant
            chars@ == value@,
            forall|j: int| 0 <= j < i ==> ' ' <= #[trigger] chars@[j] <= '~',
    {
        if !(' ' <= chars[i] && chars[i] <= '~') {
            return false;
        }
    }
    true
}

impl OfferedMimes {
    #[verifier::type_invariant]
    spec fn wf(self) -> bool {
        self.count <= MAX_OFFERED_MIMES && self.bytes <= MAX_OFFERED_BYTES
    }

    /// Adds a MIME type to the offer. An offer with too many, or with one that
    /// cannot be offered, is rejected as a whole, so that no mark on it is lost.
    pub fn add(&mut self, value: String)
        ensures
            final(self)@ == old(self)@.with(value@),
    {
        proof {
            use_type_invariant(&*self);
        }
        if self.rejected {
            return;
        }
        if !is_offerable(value.as_str()) {
            self.rejected = true;
            return;
        }
        proof {
            ascii_length(value@);
        }
        let length: usize = value.as_str().len();
        if self.count + 1 > MAX_OFFERED_MIMES || self.bytes + length > MAX_OFFERED_BYTES {
            self.rejected = true;
            return;
        }
        let mut finder = new_finder();
        std::mem::swap(&mut finder, &mut self.finder);
        add_mime(&mut finder, value);
        self.finder = finder;
        self.count = self.count + 1;
        self.bytes = self.bytes + length;
    }

    /// Takes the preferred MIME type out of the offer.
    pub fn next(&mut self) -> (best: Option<String>)
        ensures
            final(self)@ == old(self)@.without_best(),
            match best {
                Some(mime) => old(self)@.best() == Some(mime@),
                None => old(self)@.best() is None,
            },
    {
        proof {
            use_type_invariant(&*self);
            first_kept_bounds(self@.slots);
        }
        if self.rejected {
            return None;
        }
        let mut finder = new_finder();
        std::mem::swap(&mut finder, &mut self.finder);
        let best = pop_best(&mut finder);
        self.finder = finder;
        best
    }
}

impl Default for OfferedMimes {
    fn default() -> (offer: Self)
        ensures
            offer@ == OfferView::empty(),
    {
        OfferedMimes { finder: new_finder(), count: 0, bytes: 0, rejected: false }
    }
}

/// A secret is never captured: an offer among whose MIME types is a password
/// manager's mark gives none, however many others there are.
pub proof fn secrets_are_never_captured(mimes: Seq<Seq<char>>)
    requires
        mimes.contains(secret_mark()),
    ensures
        OfferView::empty().with_all(mimes).best() is None,
{
    let i = choose|i: int| 0 <= i < mimes.len() && mimes[i] == secret_mark();
    marked_offers_stay_marked(mimes, i);
}

proof fn marked_offers_stay_marked(mimes: Seq<Seq<char>>, i: int)
    requires
        0 <= i < mimes.len(),
        mimes[i] == secret_mark(),
    ensures
        ({
            let offer = OfferView::empty().with_all(mimes);
            offer.secret || offer.rejected
        }),
    decreases mimes.len(),
{
    if i < mimes.len() - 1 {
        marked_offers_stay_marked(mimes.drop_last(), i);
    }
}

} // verus!
