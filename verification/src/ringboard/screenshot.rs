//! Screenshots that a user takes: no shell, and no way for a cancelled choice of
//! a region to become a picture of the whole screen.
use crate::backend::{
    BackendError, BackendErrorKind, BackendResult, InteractiveScreenshot, ScreenshotMode,
    ScreenshotRegion,
};
use crate::limit;
use crate::model::OperationResult;
use crate::text;
use vstd::prelude::*;
use vstd::string::*;
use vstd::utf8::*;

verus! {

/// The most bytes that the program for choosing a region may print.
pub const MAX_SELECTION_OUTPUT: usize = 128;

/// A failed operation.
pub fn operation_error(message: &str) -> (error: BackendError)
    ensures
        error.is(BackendErrorKind::OperationFailed, message@),
{
    BackendError::new(BackendErrorKind::OperationFailed, message)
}

/// A rectangle as text: position, then size.
pub open spec fn geometry_text(region: ScreenshotRegion) -> Seq<char> {
    text::signed_decimal(region.x as int).push(',') + (text::signed_decimal(region.y as int).push(
        ' ',
    ) + (text::decimal(region.width as nat).push('x') + text::decimal(region.height as nat)))
}

/// A rectangle as text.
pub fn format_geometry(region: &ScreenshotRegion) -> (result: String)
    ensures
        result@ == geometry_text(*region),
{
    let mut result = text::format_i32(region.x);
    result.push(',');
    result.append(text::format_i32(region.y).as_str());
    result.push(' ');
    result.append(text::format_u64(region.width as u64).as_str());
    result.push('x');
    result.append(text::format_u64(region.height as u64).as_str());
    assert(result@ =~= geometry_text(*region));
    result
}

/// The coordinate that a text stands for.
pub open spec fn coordinate(s: Seq<char>) -> Option<int> {
    match text::signed(s) {
        Some(value) => if i32::MIN <= value <= i32::MAX {
            Some(value)
        } else {
            None
        },
        None => None,
    }
}

/// The length that a text stands for.
pub open spec fn extent(s: Seq<char>) -> Option<int> {
    match limit::unsigned(s) {
        Some(value) => if value <= u32::MAX {
            Some(value as int)
        } else {
            None
        },
        None => None,
    }
}

/// The two sides of a separator, each understood in its way.
pub open spec fn pair(
    s: Seq<char>,
    separator: char,
    read: spec_fn(Seq<char>) -> Option<int>,
) -> Option<(int, int)> {
    match text::split_first(s, separator) {
        Some((a, b)) => match (read(a), read(b)) {
            (Some(x), Some(y)) => Some((x, y)),
            _ => None,
        },
        None => None,
    }
}

/// The rectangle that a text stands for, where it is one that may be captured.
pub open spec fn region_in(s: Seq<char>) -> Option<ScreenshotRegion> {
    match text::split_first(text::trimmed(s), ' ') {
        Some((position, size)) => match (
            pair(position, ',', |s: Seq<char>| coordinate(s)),
            pair(size, 'x', |s: Seq<char>| extent(s)),
        ) {
            (Some((x, y)), Some((width, height))) => {
                let region = ScreenshotRegion {
                    x: x as i32,
                    y: y as i32,
                    width: width as u32,
                    height: height as u32,
                };
                if region.bounded() {
                    Some(region)
                } else {
                    None
                }
            },
            _ => None,
        },
        None => None,
    }
}

fn read_position(s: &[char]) -> (result: Option<(i32, i32)>)
    ensures
        match result {
            Some((x, y)) => pair(s@, ',', |s: Seq<char>| coordinate(s)) == Some(
                (x as int, y as int),
            ),
            None => pair(s@, ',', |s: Seq<char>| coordinate(s)) is None,
        },
{
    match text::split_once(s, ',') {
        Some((a, b)) => match (text::parse_i32(a.as_slice()), text::parse_i32(b.as_slice())) {
            (Some(x), Some(y)) => Some((x, y)),
            _ => None,
        },
        None => None,
    }
}

fn read_extent(s: &[char]) -> (result: Option<u32>)
    ensures
        match result {
            Some(value) => extent(s@) == Some(value as int),
            None => extent(s@) is None,
        },
{
    match limit::parse_unsigned(s) {
        Some(value) => if value <= u32::MAX as u64 {
            Some(value as u32)
        } else {
            None
        },
        None => None,
    }
}

fn read_size(s: &[char]) -> (result: Option<(u32, u32)>)
    ensures
        match result {
            Some((width, height)) => pair(s@, 'x', |s: Seq<char>| extent(s)) == Some(
                (width as int, height as int),
            ),
            None => pair(s@, 'x', |s: Seq<char>| extent(s)) is None,
        },
{
    match text::split_once(s, 'x') {
        Some((a, b)) => match (read_extent(a.as_slice()), read_extent(b.as_slice())) {
            (Some(width), Some(height)) => Some((width, height)),
            _ => None,
        },
        None => None,
    }
}

/// The rectangle that a text stands for, where it is one that may be captured.
pub fn parse_region(value: &str) -> (region: Option<ScreenshotRegion>)
    ensures
        region == region_in(value@),
{
    let trimmed = text::trim_chars(text::chars_of(value).as_slice());
    let (position, size) = match text::split_once(trimmed.as_slice(), ' ') {
        Some(parts) => parts,
        None => {
            return None;
        },
    };
    match (read_position(position.as_slice()), read_size(size.as_slice())) {
        (Some((x, y)), Some((width, height))) => {
            let region = ScreenshotRegion { x, y, width, height };
            if region.is_bounded() {
                Some(region)
            } else {
                None
            }
        },
        _ => None,
    }
}

/// The rectangle that a text stands for, written in the one way.
pub fn parse_geometry(value: &str) -> (geometry: BackendResult<String>)
    ensures
        match geometry {
            Ok(geometry) => region_in(value@) is Some && geometry@ == geometry_text(
                region_in(value@)->0,
            ),
            Err(error) => region_in(value@) is None && error.is(
                BackendErrorKind::OperationFailed,
                "Invalid screenshot region"@,
            ),
        },
{
    match parse_region(value) {
        Some(region) => Ok(format_geometry(&region)),
        None => Err(operation_error("Invalid screenshot region")),
    }
}

proof fn digits_lack(n: nat, c: char)
    requires
        !('0' <= c <= '9'),
    ensures
        !text::decimal(n).contains(c),
{
    text::decimal_is_digits(n);
    if text::decimal(n).contains(c) {
        let i = choose|i: int| 0 <= i < text::decimal(n).len() && text::decimal(n)[i] == c;
        assert('0' <= text::decimal(n)[i] <= '9');
    }
}

proof fn signed_digits_lack(n: int, c: char)
    requires
        !('0' <= c <= '9'),
        c != '-',
    ensures
        !text::signed_decimal(n).contains(c),
        text::signed_decimal(n).len() > 0,
        text::signed_decimal(n)[0] == '-' || '0' <= text::signed_decimal(n)[0] <= '9',
{
    if n < 0 {
        digits_lack((-n) as nat, c);
        let d = text::decimal((-n) as nat);
        let s = text::signed_decimal(n);
        if s.contains(c) {
            let i = choose|i: int| 0 <= i < s.len() && s[i] == c;
            assert(i > 0);
            assert(d[i - 1] == c);
        }
    } else {
        digits_lack(n as nat, c);
        text::decimal_is_digits(n as nat);
    }
}

proof fn extent_of_decimal(n: u32)
    ensures
        extent(text::decimal(n as nat)) == Some(n as int),
{
    text::numeral_of_decimal(n as nat);
    text::decimal_is_digits(n as nat);
    assert('0' <= text::decimal(n as nat)[0] <= '9');
}

/// What is written of a rectangle that may be captured is read back as that
/// rectangle: the text is canonical.
pub proof fn geometry_is_canonical(region: ScreenshotRegion)
    requires
        region.bounded(),
    ensures
        region_in(geometry_text(region)) == Some(region),
{
    let x = text::signed_decimal(region.x as int);
    let y = text::signed_decimal(region.y as int);
    let width = text::decimal(region.width as nat);
    let height = text::decimal(region.height as nat);
    let position = x.push(',') + y;
    let size = width.push('x') + height;
    let s = geometry_text(region);
    signed_digits_lack(region.x as int, ' ');
    signed_digits_lack(region.y as int, ' ');
    signed_digits_lack(region.x as int, ',');
    digits_lack(region.width as nat, 'x');
    text::decimal_is_digits(region.height as nat);
    assert(s =~= position.push(' ') + size);
    assert(!position.contains(' ')) by {
        if position.contains(' ') {
            let i = choose|i: int| 0 <= i < position.len() && position[i] == ' ';
            if i < x.len() {
                assert(x[i] == ' ');
            } else if i > x.len() {
                assert(y[i - x.len() - 1] == ' ');
            }
        }
    }
    assert(s[0] == x[0]);
    assert(s.last() == height.last());
    text::trimmed_is_same(s);
    text::splits_at(position, ' ', size);
    text::splits_at(x, ',', y);
    text::splits_at(width, 'x', height);
    text::signed_of_decimal(region.x as int);
    text::signed_of_decimal(region.y as int);
    extent_of_decimal(region.width);
    extent_of_decimal(region.height);
}

/// What the program for choosing a region gave: a rectangle, or that the user
/// chose none.
pub fn region_selection(output: &[u8], exit_code: Option<i32>) -> (selection: BackendResult<
    Option<String>,
>)
    ensures
        match selection {
            Ok(None) => output@.len() <= MAX_SELECTION_OUTPUT && exit_code == Some(1i32),
            Ok(Some(geometry)) => output@.len() <= MAX_SELECTION_OUTPUT && exit_code == Some(0i32)
                && valid_utf8(output@) && region_in(decode_utf8(output@)) is Some && geometry@
                == geometry_text(region_in(decode_utf8(output@))->0),
            Err(error) => error.kind == BackendErrorKind::OperationFailed && if output@.len()
                > MAX_SELECTION_OUTPUT {
                error.message@ == "Invalid screenshot region"@
            } else if exit_code != Some(0i32) {
                exit_code != Some(1i32) && error.message@ == "Region selector failed"@
            } else if !valid_utf8(output@) {
                error.message@ == text::utf8_error_text(output@)
            } else {
                region_in(decode_utf8(output@)) is None && error.message@
                    == "Invalid screenshot region"@
            },
        },
{
    if output.len() > MAX_SELECTION_OUTPUT {
        return Err(operation_error("Invalid screenshot region"));
    }
    match exit_code {
        Some(0) => {},
        Some(1) => {
            return Ok(None);
        },
        _ => {
            return Err(operation_error("Region selector failed"));
        },
    }
    match text::text_of(output) {
        Some(value) => match parse_geometry(value) {
            Ok(geometry) => Ok(Some(geometry)),
            Err(error) => Err(error),
        },
        None => Err(operation_error(text::utf8_error(output).as_str())),
    }
}

/// What is done for a screenshot.
pub enum CaptureAction {
    /// Lets the user choose a region.
    SelectRegion,
    /// Takes the picture, of this region or of the whole screen.
    Grab { geometry: Option<String> },
    /// Looks whether the picture may be edited.
    CheckPicture,
    /// Lets the user edit the picture.
    Edit,
    /// Takes the right to finish, unless the operation was cancelled.
    BeginCommit,
    /// Looks whether the picture, edited or not, may be published.
    CheckResult { edited: bool },
    /// Publishes the picture.
    Publish { edited: bool },
    /// Nothing more: the picture was published, the user gave up, or it failed.
    Finished(Result<bool, String>),
}

/// What came of the last action.
pub enum CaptureEvent {
    /// The user chose this region, or none.
    Selected(Option<String>),
    /// The picture was taken, or the program said that it could not.
    Grabbed(bool),
    /// The picture is a valid one, or not.
    Checked(bool),
    /// The user is done with editing, and there is a result, or not.
    Edited(bool),
    /// The right to finish was given, or not.
    Claimed(bool),
    Published,
    /// The action failed.
    Failed(String),
}

/// A screenshot under way.
pub struct ScreenshotJob {
    pub request: InteractiveScreenshot,
    pub action: CaptureAction,
}

impl ScreenshotJob {
    pub fn new(request: InteractiveScreenshot) -> (job: Self)
        ensures
            job.request == request,
            match request.mode {
                ScreenshotMode::Region => job.action == CaptureAction::SelectRegion,
                ScreenshotMode::Screen => job.action == (CaptureAction::Grab { geometry: None }),
            },
    {
        ScreenshotJob {
            request,
            action: match request.mode {
                ScreenshotMode::Region => CaptureAction::SelectRegion,
                ScreenshotMode::Screen => CaptureAction::Grab { geometry: None },
            },
        }
    }

    /// The job is over, and failed with this.
    pub open spec fn failed_with(self, message: Seq<char>) -> bool {
        self.action matches CaptureAction::Finished(Err(error)) && error@ == message
    }

    /// `self` is `before` after `event`. An event that does not belong to the
    /// action is a failure.
    pub open spec fn follows(self, before: Self, event: CaptureEvent) -> bool {
        &&& self.request == before.request
        &&& match (before.action, event) {
            (CaptureAction::Finished(result), _) => self.action == before.action,
            (_, CaptureEvent::Failed(error)) => self.action == CaptureAction::Finished(Err(error)),
            (CaptureAction::SelectRegion, CaptureEvent::Selected(Some(geometry))) => self.action
                == (CaptureAction::Grab { geometry: Some(geometry) }),
            (CaptureAction::SelectRegion, CaptureEvent::Selected(None)) => self.action
                == CaptureAction::Finished(Ok(false)),
            (CaptureAction::Grab { .. }, CaptureEvent::Grabbed(true)) => self.action == (
            if before.request.annotate {
                CaptureAction::CheckPicture
            } else {
                CaptureAction::BeginCommit
            }),
            (CaptureAction::Grab { .. }, CaptureEvent::Grabbed(false)) => self.failed_with(
                "Screenshot capture failed"@,
            ),
            (CaptureAction::CheckPicture, CaptureEvent::Checked(true)) => self.action
                == CaptureAction::Edit,
            (CaptureAction::CheckPicture, CaptureEvent::Checked(false)) => self.failed_with(
                "Screenshot is not a valid bounded PNG"@,
            ),
            (CaptureAction::Edit, CaptureEvent::Edited(true)) => self.action
                == CaptureAction::BeginCommit,
            (CaptureAction::Edit, CaptureEvent::Edited(false)) => self.action
                == CaptureAction::Finished(Ok(false)),
            (CaptureAction::BeginCommit, CaptureEvent::Claimed(true)) => self.action == (
            CaptureAction::CheckResult { edited: before.request.annotate }),
            (CaptureAction::BeginCommit, CaptureEvent::Claimed(false)) => self.action
                == CaptureAction::Finished(Ok(false)),
            (CaptureAction::CheckResult { edited }, CaptureEvent::Checked(true)) => self.action == (
            CaptureAction::Publish { edited }),
            (CaptureAction::CheckResult { .. }, CaptureEvent::Checked(false)) => self.failed_with(
                "Screenshot is not a valid bounded PNG"@,
            ),
            (CaptureAction::Publish { .. }, CaptureEvent::Published) => self.action
                == CaptureAction::Finished(Ok(true)),
            (_, _) => self.failed_with("Screenshot step is out of order"@),
        }
    }

    /// Takes note of what came of the last action, and goes on to the next.
    pub fn capture(self, event: CaptureEvent) -> (next: Self)
        ensures
            next.follows(self, event),
    {
        let request = self.request;
        let action = match (self.action, event) {
            (CaptureAction::Finished(result), _) => CaptureAction::Finished(result),
            (_, CaptureEvent::Failed(error)) => CaptureAction::Finished(Err(error)),
            (CaptureAction::SelectRegion, CaptureEvent::Selected(Some(geometry))) => {
                CaptureAction::Grab { geometry: Some(geometry) }
            },
            (CaptureAction::SelectRegion, CaptureEvent::Selected(None)) => CaptureAction::Finished(
                Ok(false),
            ),
            (CaptureAction::Grab { .. }, CaptureEvent::Grabbed(true)) => if request.annotate {
                CaptureAction::CheckPicture
            } else {
                CaptureAction::BeginCommit
            },
            (CaptureAction::Grab { .. }, CaptureEvent::Grabbed(false)) => CaptureAction::Finished(
                Err("Screenshot capture failed".to_owned()),
            ),
            (CaptureAction::CheckPicture, CaptureEvent::Checked(true)) => CaptureAction::Edit,
            (CaptureAction::CheckPicture, CaptureEvent::Checked(false)) => CaptureAction::Finished(
                Err("Screenshot is not a valid bounded PNG".to_owned()),
            ),
            (CaptureAction::Edit, CaptureEvent::Edited(true)) => CaptureAction::BeginCommit,
            (CaptureAction::Edit, CaptureEvent::Edited(false)) => CaptureAction::Finished(
                Ok(false),
            ),
            (CaptureAction::BeginCommit, CaptureEvent::Claimed(true)) => {
                CaptureAction::CheckResult { edited: request.annotate }
            },
            (CaptureAction::BeginCommit, CaptureEvent::Claimed(false)) => CaptureAction::Finished(
                Ok(false),
            ),
            (CaptureAction::CheckResult { edited }, CaptureEvent::Checked(true)) => {
                CaptureAction::Publish { edited }
            },
            (CaptureAction::CheckResult { .. }, CaptureEvent::Checked(false)) => {
                CaptureAction::Finished(Err("Screenshot is not a valid bounded PNG".to_owned()))
            },
            (CaptureAction::Publish { .. }, CaptureEvent::Published) => CaptureAction::Finished(
                Ok(true),
            ),
            (_, _) => CaptureAction::Finished(Err("Screenshot step is out of order".to_owned())),
        };
        ScreenshotJob { request, action }
    }

    /// The whole screen is only taken where that was asked for, and what is
    /// published is the edited picture exactly where editing was asked for.
    pub open spec fn faithful(self) -> bool {
        match self.action {
            CaptureAction::Grab { geometry } => geometry is None <==> self.request.mode
                is Screen,
            CaptureAction::CheckResult { edited } => edited == self.request.annotate,
            CaptureAction::Publish { edited } => edited == self.request.annotate,
            _ => true,
        }
    }
}

/// A cancelled choice of a region never becomes a picture of the whole screen,
/// whatever happens.
pub proof fn captures_stay_faithful(before: ScreenshotJob, after: ScreenshotJob, event: CaptureEvent)
    requires
        before.faithful(),
        before.action is SelectRegion ==> before.request.mode is Region,
        after.follows(before, event),
    ensures
        after.faithful(),
        after.action is SelectRegion ==> after.request.mode is Region,
{
}

/// What is said of a screenshot that is over.
pub fn screenshot_event(id: String, result: Result<bool, String>) -> (event: OperationResult)
    ensures
        event.id == id,
        event.action@ == "screenshot"@,
        event.path is None,
        event.warning is None,
        match result {
            Ok(true) => event.status@ == "completed"@ && event.message@ == "Screenshot copied"@,
            Ok(false) => event.status@ == "cancelled"@ && event.message@
                == "Screenshot cancelled"@,
            Err(error) => event.status@ == "failed"@ && event.message@ == error@,
        },
{
    match result {
        Ok(true) => OperationResult::with_id(id, "screenshot", "completed", "Screenshot copied"),
        Ok(false) => OperationResult::with_id(
            id,
            "screenshot",
            "cancelled",
            "Screenshot cancelled",
        ),
        Err(error) => OperationResult::with_id(id, "screenshot", "failed", error.as_str()),
    }
}

/// What came of the program that takes a picture of a region.
pub enum Grab {
    NotStarted,
    /// It could not be waited for.
    Failed(String),
    TimedOut,
    /// It ended, and said whether it took the picture.
    Ended(bool),
}

/// Whether a picture was taken.
pub fn region_grabbed(grab: Grab) -> (result: BackendResult<()>)
    ensures
        match grab {
            Grab::Ended(true) => result is Ok,
            _ => result matches Err(error) && error.is(
                BackendErrorKind::OperationFailed,
                match grab {
                    Grab::NotStarted => "Could not start screenshot capture"@,
                    Grab::Failed(message) => message@,
                    Grab::TimedOut => "Screenshot capture timed out"@,
                    Grab::Ended(_) => "Screenshot capture failed"@,
                },
            ),
        },
{
    match grab {
        Grab::Ended(true) => Ok(()),
        Grab::Ended(false) => Err(operation_error("Screenshot capture failed")),
        Grab::NotStarted => Err(operation_error("Could not start screenshot capture")),
        Grab::Failed(message) => Err(operation_error(message.as_str())),
        Grab::TimedOut => Err(operation_error("Screenshot capture timed out")),
    }
}

/// Whether a picture of a region may be published.
pub fn region_checked(valid: bool) -> (result: BackendResult<()>)
    ensures
        match result {
            Ok(_) => valid,
            Err(error) => !valid && error.is(
                BackendErrorKind::OperationFailed,
                "Screenshot capture returned an invalid image"@,
            ),
        },
{
    if valid {
        Ok(())
    } else {
        Err(operation_error("Screenshot capture returned an invalid image"))
    }
}

/// What is told of a picture of a region, once it was to be published.
pub fn region_published(published: BackendResult<()>) -> (result: BackendResult<OperationResult>)
    ensures
        match (published, result) {
            (Ok(_), Ok(operation)) => {
                &&& operation.action@ == "screenshot"@
                &&& operation.status@ == "completed"@
                &&& operation.message@ == "Screenshot published to the Wayland clipboard"@
                &&& operation.path is None
                &&& operation.warning is None
            },
            (Err(reason), Err(error)) => error == reason,
            _ => false,
        },
{
    match published {
        Ok(_) => Ok(
            OperationResult::completed(
                "screenshot",
                "Screenshot published to the Wayland clipboard",
            ),
        ),
        Err(error) => Err(error),
    }
}

} // verus!
