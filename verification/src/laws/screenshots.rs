//! What a screenshot is taken of, and what becomes of it.
use crate::backend::{BackendResult, InteractiveScreenshot, ScreenshotRegion};
use crate::model::OperationResult;
use crate::ringboard::screenshot;
use crate::ringboard::screenshot::{CaptureAction, CaptureEvent, Grab, ScreenshotJob};
use crate::text;
use vstd::prelude::*;
use vstd::string::*;
use vstd::utf8::*;

verus! {

/// A rectangle is written as its position and its size, in the way that is read back.
pub proof fn rectangles_are_read_back(
    region: ScreenshotRegion,
    written: String,
    value: &str,
    read: Option<ScreenshotRegion>,
    x: String,
    y: String,
    width: String,
    height: String,
)
    requires
        call_ensures(screenshot::format_geometry, (&region,), written),
        value@ == written@,
        call_ensures(screenshot::parse_region, (value,), read),
        call_ensures(text::format_i32, (region.x,), x),
        call_ensures(text::format_i32, (region.y,), y),
        call_ensures(text::format_u64, (region.width as u64,), width),
        call_ensures(text::format_u64, (region.height as u64,), height),
        1 <= region.width <= 16_384,
        1 <= region.height <= 16_384,
        region.width * region.height <= 33_554_432,
    ensures
        read == Some(region),
        written@ == x@ + seq![','] + y@ + seq![' '] + width@ + seq!['x'] + height@,
{
    screenshot::geometry_is_canonical(region);
    assert(written@ =~= x@ + seq![','] + y@ + seq![' '] + width@ + seq!['x'] + height@);
}

/// A rectangle that is read may be captured: it is not empty, and not too large.
pub proof fn only_bounded_rectangles_are_read(value: &str, read: Option<ScreenshotRegion>)
    requires
        call_ensures(screenshot::parse_region, (value,), read),
    ensures
        read matches Some(region) ==> 1 <= region.width <= 16_384 && 1 <= region.height <= 16_384
            && region.width * region.height <= 33_554_432,
        !value@.contains(' ') ==> read is None,
{
    if read is Some && !value@.contains(' ') {
        let trimmed = text::trimmed(value@);
        text::index_of_is_first(trimmed, ' ');
        let at = choose|i: int| 0 <= i < trimmed.len() && trimmed[i] == ' ';
        no_space_comes_from_trimming(value@, at);
    }
}

proof fn no_space_comes_from_trimming(s: Seq<char>, at: int)
    requires
        0 <= at < text::trimmed(s).len(),
    ensures
        s.contains(text::trimmed(s)[at]),
{
    start_is_cut(s);
    let rest = text::trim_start(s);
    end_is_cut(rest);
    let from = s.len() - rest.len();
    assert(s[from + at] == text::trimmed(s)[at]);
}

proof fn start_is_cut(s: Seq<char>)
    ensures
        text::trim_start(s).len() <= s.len(),
        text::trim_start(s) == s.skip(s.len() - text::trim_start(s).len()),
    decreases s.len(),
{
    if s.len() > 0 && text::white(s[0]) {
        start_is_cut(s.drop_first());
        let rest = text::trim_start(s);
        assert(s.drop_first().skip(s.len() - 1 - rest.len()) =~= s.skip(s.len() - rest.len()));
    } else {
        assert(s.skip(0) =~= s);
    }
}

proof fn end_is_cut(s: Seq<char>)
    ensures
        text::trim_end(s).len() <= s.len(),
        text::trim_end(s) == s.take(text::trim_end(s).len() as int),
    decreases s.len(),
{
    if s.len() > 0 && text::white(s.last()) {
        end_is_cut(s.drop_last());
        let rest = text::trim_end(s);
        assert(s.drop_last().take(rest.len() as int) =~= s.take(rest.len() as int));
    } else {
        assert(s.take(s.len() as int) =~= s);
    }
}

/// Choosing a region gives the rectangle that was chosen where the program says so, and
/// none where the user gave up; any other end, and more than 128 bytes, is a failure.
pub proof fn regions_are_chosen_or_given_up(
    output: &[u8],
    exit_code: Option<i32>,
    chosen: BackendResult<Option<String>>,
    value: &str,
    read: Option<ScreenshotRegion>,
    region: ScreenshotRegion,
    written: String,
)
    requires
        call_ensures(screenshot::region_selection, (output, exit_code), chosen),
        valid_utf8(output@) ==> value@ == decode_utf8(output@),
        call_ensures(screenshot::parse_region, (value,), read),
        read is Some ==> region == read->0,
        call_ensures(screenshot::format_geometry, (&region,), written),
    ensures
        output@.len() > 128 ==> chosen is Err,
        exit_code != Some(0i32) && exit_code != Some(1i32) ==> chosen is Err,
        output@.len() <= 128 && exit_code == Some(1i32) ==> (chosen matches Ok(None)),
        output@.len() <= 128 && exit_code == Some(0i32) ==> (chosen is Ok <==> valid_utf8(output@)
            && read is Some),
        chosen matches Ok(Some(geometry)) ==> exit_code == Some(0i32) && geometry@ == written@,
{
}

/// A screenshot begins with choosing a region exactly where one is to be chosen, and
/// else with the whole screen.
pub proof fn screenshots_begin_as_asked(request: InteractiveScreenshot, job: ScreenshotJob)
    requires
        call_ensures(ScreenshotJob::new, (request,), job),
    ensures
        request.mode is Region ==> job.action is SelectRegion,
        request.mode is Screen ==> job.action == (CaptureAction::Grab { geometry: None }),
        job.request == request,
{
}

/// The picture is of the region that was chosen, is edited exactly where that was
/// asked for, and is published only once the right to finish was given and the picture
/// was found to be one. Giving up ends it without a picture.
pub proof fn screenshots_go_step_by_step(job: ScreenshotJob, event: CaptureEvent, next: ScreenshotJob)
    requires
        call_ensures(ScreenshotJob::capture, (job, event), next),
    ensures
        next.request == job.request,
        job.action is SelectRegion && event is Selected && event->Selected_0 is Some ==> next.action
            == (CaptureAction::Grab { geometry: event->Selected_0 }),
        job.action is SelectRegion && event == CaptureEvent::Selected(None) ==> next.action
            == CaptureAction::Finished(Ok(false)),
        job.action is Grab && event == CaptureEvent::Grabbed(true) && job.request.annotate
            ==> next.action is CheckPicture,
        job.action is Grab && event == CaptureEvent::Grabbed(true) && !job.request.annotate
            ==> next.action is BeginCommit,
        job.action is CheckPicture && event == CaptureEvent::Checked(true) ==> next.action is Edit,
        job.action is Edit && event == CaptureEvent::Edited(true) ==> next.action is BeginCommit,
        job.action is Edit && event == CaptureEvent::Edited(false) ==> next.action
            == CaptureAction::Finished(Ok(false)),
        job.action is BeginCommit && event == CaptureEvent::Claimed(true) ==> next.action == (
        CaptureAction::CheckResult { edited: job.request.annotate }),
        job.action is BeginCommit && event == CaptureEvent::Claimed(false) ==> next.action
            == CaptureAction::Finished(Ok(false)),
        job.action is CheckResult && event == CaptureEvent::Checked(true) ==> next.action == (
        CaptureAction::Publish { edited: job.action->CheckResult_edited }),
        job.action is Publish && event is Published ==> next.action == CaptureAction::Finished(
            Ok(true),
        ),
        next.action is Publish ==> job.action is CheckResult && event == CaptureEvent::Checked(true),
        next.action == CaptureAction::Finished(Ok(true)) ==> job.action is Publish
            || job.action == CaptureAction::Finished(Ok(true)),
        event is Failed && !(job.action is Finished) ==> next.action == CaptureAction::Finished(
            Err(event->Failed_0),
        ),
        event == CaptureEvent::Grabbed(false) && job.action is Grab ==> (
        next.action matches CaptureAction::Finished(Err(_))),
        event == CaptureEvent::Checked(false) && (job.action is CheckPicture
            || job.action is CheckResult) ==> (next.action matches CaptureAction::Finished(Err(_))),
        job.action is Finished ==> next.action == job.action,
{
}

/// The end of a screenshot is told as it went.
pub proof fn screenshots_end_as_they_went(
    id: String,
    result: Result<bool, String>,
    event: OperationResult,
)
    requires
        call_ensures(screenshot::screenshot_event, (id, result), event),
    ensures
        event.id@ == id@,
        event.action@ == "screenshot"@,
        event.path is None && event.warning is None,
        result == Ok::<bool, String>(true) ==> event.status@ == "completed"@ && event.message@
            == "Screenshot copied"@,
        result == Ok::<bool, String>(false) ==> event.status@ == "cancelled"@ && event.message@
            == "Screenshot cancelled"@,
        result matches Err(error) ==> event.status@ == "failed"@ && event.message@ == error@,
{
}

/// A picture of a region counts only where the program ended well and the picture is
/// one, and is told as published only where it was.
pub proof fn pictures_of_regions_are_checked(
    grab: Grab,
    grabbed: BackendResult<()>,
    valid: bool,
    checked: BackendResult<()>,
    published: BackendResult<()>,
    told: BackendResult<OperationResult>,
)
    requires
        call_ensures(screenshot::region_grabbed, (grab,), grabbed),
        call_ensures(screenshot::region_checked, (valid,), checked),
        call_ensures(screenshot::region_published, (published,), told),
    ensures
        grabbed is Ok <==> grab == Grab::Ended(true),
        checked is Ok <==> valid,
        told is Ok <==> published is Ok,
        told matches Ok(operation) ==> operation.action@ == "screenshot"@ && operation.status@
            == "completed"@ && operation.path is None && operation.warning is None,
        told matches Err(error) ==> error == published->Err_0,
{
}

/// A rectangle that was chosen is written in the one way that it is read back.
pub proof fn chosen_rectangles_are_canonical(
    value: &str,
    geometry: BackendResult<String>,
    read: Option<ScreenshotRegion>,
    region: ScreenshotRegion,
    written: String,
)
    requires
        call_ensures(screenshot::parse_geometry, (value,), geometry),
        call_ensures(screenshot::parse_region, (value,), read),
        read is Some ==> region == read->0,
        call_ensures(screenshot::format_geometry, (&region,), written),
    ensures
        geometry is Ok <==> read is Some,
        geometry matches Ok(geometry) ==> geometry@ == written@,
{
}

} // verus!
