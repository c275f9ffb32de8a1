//! Notifications about jobs whose execution is over.
use vstd::prelude::*;
use crate::clock;
use crate::config;
use crate::config::NotificationRecipients;
use crate::dispatch;
use crate::dispatch::Dispatch;
use crate::template;
use crate::template::WebhookContext;
use crate::text;
use crate::webhook;

verus! {

/// How many bytes of the output of a job go into a notification.
pub const OUTPUT_LIMIT: usize = 50_000;

/// How an execution ended.
#[derive(Debug)]
pub enum ExecutionStatus {
    Succeeded,
    Failed,
    TimedOut,
    /// Any other status, by its name. No notification is about these.
    Other(String),
}

/// What a job wants to be notified about, and whom.
#[derive(Debug)]
pub struct JobNotificationConfig {
    pub on_failure: bool,
    pub on_success: bool,
    pub on_assertion_failure: bool,
    /// When the output of the job goes into the notification: "always", "failure", or never.
    pub email_output: Option<String>,
    pub recipients: Option<NotificationRecipients>,
}

/// Did the execution fail or run out of time?
pub open spec fn is_failure(status: ExecutionStatus) -> bool {
    status is Failed || status is TimedOut
}

/// Does the job want a notification about an execution that ended like this?
pub open spec fn should_notify(notif: JobNotificationConfig, status: ExecutionStatus) -> bool {
    match status {
        ExecutionStatus::Failed => notif.on_failure || notif.on_assertion_failure,
        ExecutionStatus::TimedOut => notif.on_failure || notif.on_assertion_failure,
        ExecutionStatus::Succeeded => notif.on_success,
        ExecutionStatus::Other(_) => false,
    }
}

/// Does the output of the job go into the notification?
pub open spec fn include_output(notif: JobNotificationConfig, status: ExecutionStatus) -> bool {
    match notif.email_output {
        Some(when) => when@ == "always"@ || (when@ == "failure"@ && is_failure(status)),
        None => false,
    }
}

/// The output of the job can be cut at the limit wherever a notification shows it.
pub open spec fn output_fits(
    notif: JobNotificationConfig,
    status: ExecutionStatus,
    stdout: Seq<char>,
    stderr: Seq<char>,
) -> bool {
    should_notify(notif, status) && include_output(notif, status) ==> {
        &&& text::cuts_cleanly(stdout, OUTPUT_LIMIT as int)
        &&& text::cuts_cleanly(stderr, OUTPUT_LIMIT as int)
    }
}

/// How the subject of a notification words the end of an execution.
pub open spec fn status_words(status: ExecutionStatus) -> Seq<char> {
    match status {
        ExecutionStatus::Succeeded => "succeeded"@,
        ExecutionStatus::Failed => "failed"@,
        ExecutionStatus::TimedOut => "timed out"@,
        ExecutionStatus::Other(_) => "completed"@,
    }
}

/// How templates name the end of an execution.
pub open spec fn status_key(status: ExecutionStatus) -> Seq<char> {
    match status {
        ExecutionStatus::Succeeded => "succeeded"@,
        ExecutionStatus::Failed => "failed"@,
        ExecutionStatus::TimedOut => "timed_out"@,
        ExecutionStatus::Other(_) => "completed"@,
    }
}

/// The name of a status.
pub open spec fn status_name(status: ExecutionStatus) -> Seq<char> {
    match status {
        ExecutionStatus::Succeeded => "Succeeded"@,
        ExecutionStatus::Failed => "Failed"@,
        ExecutionStatus::TimedOut => "TimedOut"@,
        ExecutionStatus::Other(name) => name@,
    }
}

/// The subject of the notification about an execution.
pub open spec fn subject_of(job_name: Seq<char>, status: ExecutionStatus) -> Seq<char> {
    "[Kronforce] Job '"@ + job_name + "' "@ + status_words(status)
}

/// What the body of every notification about an execution starts with.
pub open spec fn body_head(
    job_name: Seq<char>,
    status: ExecutionStatus,
    exec_id: Seq<char>,
    stamp: Seq<char>,
) -> Seq<char> {
    "Job: "@ + job_name + "\nStatus: "@ + status_name(status) + "\nExecution: "@ + exec_id
        + "\nTime: "@ + stamp + "\n"@
}

/// A part of the output under its title, up to the limit; nothing where there is no output.
pub open spec fn output_section(title: Seq<char>, output: Seq<char>) -> Seq<char> {
    if output.len() == 0 {
        Seq::empty()
    } else {
        title + text::clip(output, OUTPUT_LIMIT as int) + "\n"@
    }
}

/// The body of the notification about an execution: either the output of the job, or an excerpt
/// from its errors, follows the head.
pub open spec fn body_of(
    head: Seq<char>,
    with_output: bool,
    stderr_excerpt: Seq<char>,
    stdout: Seq<char>,
    stderr: Seq<char>,
) -> Seq<char> {
    if with_output {
        head + output_section("\n--- Output ---\n"@, stdout) + output_section(
            "\n--- Error ---\n"@,
            stderr,
        )
    } else if stderr_excerpt.len() > 0 {
        head + "\nError output:\n"@ + stderr_excerpt
    } else {
        head
    }
}

/// The facts about an execution that a notification tells.
pub struct ExecutionFacts {
    pub job_name: Seq<char>,
    pub exec_id: Seq<char>,
    pub status: ExecutionStatus,
    pub stderr_excerpt: Seq<char>,
    pub stdout: Seq<char>,
    pub stderr: Seq<char>,
}

/// The body of the notification about an execution.
pub open spec fn notice_body(
    notif: JobNotificationConfig,
    facts: ExecutionFacts,
    stamp: Seq<char>,
) -> Seq<char> {
    body_of(
        body_head(facts.job_name, facts.status, facts.exec_id, stamp),
        include_output(notif, facts.status),
        facts.stderr_excerpt,
        facts.stdout,
        facts.stderr,
    )
}

/// What the templates of webhooks learn about an execution. They get its whole output, whatever
/// the body shows of it.
pub open spec fn notice_context(
    notif: JobNotificationConfig,
    facts: ExecutionFacts,
    stamp: Seq<char>,
    timestamp: Seq<char>,
) -> template::ContextView {
    template::ContextView {
        subject: subject_of(facts.job_name, facts.status),
        body: notice_body(notif, facts, stamp),
        job_name: Some(facts.job_name),
        status: Some(status_key(facts.status)),
        execution_id: Some(facts.exec_id),
        stdout: Some(facts.stdout),
        stderr: Some(facts.stderr),
        timestamp,
    }
}

/// The recipients that a job has of its own.
pub open spec fn own_recipients(notif: JobNotificationConfig) -> Option<config::RecipientsView> {
    match notif.recipients {
        Some(recipients) => Some(recipients@),
        None => None,
    }
}

/// The notification about an execution, if the job wants one.
pub open spec fn notice(
    notif: JobNotificationConfig,
    facts: ExecutionFacts,
    stamp: Seq<char>,
    timestamp: Seq<char>,
) -> Option<dispatch::DispatchView> {
    if should_notify(notif, facts.status) {
        Some(
            dispatch::start(
                subject_of(facts.job_name, facts.status),
                notice_body(notif, facts, stamp),
                own_recipients(notif),
                Some(notice_context(notif, facts, stamp, timestamp)),
            ),
        )
    } else {
        None
    }
}

/// A notification on its way as plain values, if there is one.
pub open spec fn optional_dispatch(dispatch: Option<Dispatch>) -> Option<dispatch::DispatchView> {
    match dispatch {
        Some(dispatch) => Some(dispatch@),
        None => None,
    }
}

/// Does the job want a notification about an execution that ended like this?
pub fn wants_notice(notif: &JobNotificationConfig, status: &ExecutionStatus) -> (wanted: bool)
    ensures
        wanted == should_notify(*notif, *status),
{
    match status {
        ExecutionStatus::Failed | ExecutionStatus::TimedOut => {
            notif.on_failure || notif.on_assertion_failure
        },
        ExecutionStatus::Succeeded => notif.on_success,
        ExecutionStatus::Other(_) => false,
    }
}

/// Does the output of the job go into the notification?
pub fn wants_output(notif: &JobNotificationConfig, status: &ExecutionStatus) -> (wanted: bool)
    ensures
        wanted == include_output(*notif, *status),
{
    match &notif.email_output {
        Some(when) => {
            if text::same_text(when.as_str(), "always") {
                true
            } else if text::same_text(when.as_str(), "failure") {
                match status {
                    ExecutionStatus::Failed | ExecutionStatus::TimedOut => true,
                    _ => false,
                }
            } else {
                false
            }
        },
        None => false,
    }
}

/// Can the output of the job be cut at the limit wherever a notification shows it?
pub fn output_can_be_cut(
    notif: &JobNotificationConfig,
    status: &ExecutionStatus,
    stdout: &str,
    stderr: &str,
) -> (fits: bool)
    ensures
        fits == output_fits(*notif, *status, stdout@, stderr@),
{
    if wants_notice(notif, status) && wants_output(notif, status) {
        text::text_cuts_cleanly(stdout, OUTPUT_LIMIT) && text::text_cuts_cleanly(
            stderr,
            OUTPUT_LIMIT,
        )
    } else {
        true
    }
}

/// Words the subject of the notification about an execution.
pub fn notice_subject(job_name: &str, status: &ExecutionStatus) -> (subject: String)
    ensures
        subject@ == subject_of(job_name@, *status),
{
    let mut subject = "[Kronforce] Job '".to_string();
    subject.append(job_name);
    subject.append("' ");
    match status {
        ExecutionStatus::Succeeded => subject.append("succeeded"),
        ExecutionStatus::Failed => subject.append("failed"),
        ExecutionStatus::TimedOut => subject.append("timed out"),
        ExecutionStatus::Other(_) => subject.append("completed"),
    }
    subject
}

/// Names a status for templates.
fn template_status(status: &ExecutionStatus) -> (key: String)
    ensures
        key@ == status_key(*status),
{
    match status {
        ExecutionStatus::Succeeded => "succeeded".to_string(),
        ExecutionStatus::Failed => "failed".to_string(),
        ExecutionStatus::TimedOut => "timed_out".to_string(),
        ExecutionStatus::Other(_) => "completed".to_string(),
    }
}

/// Writes what the body of every notification about an execution starts with.
fn write_head(job_name: &str, status: &ExecutionStatus, exec_id: &str, stamp: &str) -> (head:
    String)
    ensures
        head@ == body_head(job_name@, *status, exec_id@, stamp@),
{
    let mut head = "Job: ".to_string();
    head.append(job_name);
    head.append("\nStatus: ");
    match status {
        ExecutionStatus::Succeeded => head.append("Succeeded"),
        ExecutionStatus::Failed => head.append("Failed"),
        ExecutionStatus::TimedOut => head.append("TimedOut"),
        ExecutionStatus::Other(name) => head.append(name.as_str()),
    }
    head.append("\nExecution: ");
    head.append(exec_id);
    head.append("\nTime: ");
    head.append(stamp);
    head.append("\n");
    head
}

/// Appends a part of the output under its title, up to the limit.
fn append_section(body: &mut String, title: &str, output: &str)
    requires
        text::cuts_cleanly(output@, OUTPUT_LIMIT as int),
    ensures
        final(body)@ == old(body)@ + output_section(title@, output@),
{
    if !output.is_empty() {
        body.append(title);
        body.append(text::text_clip(output, OUTPUT_LIMIT));
        body.append("\n");
        assert(body@ =~= old(body)@ + output_section(title@, output@));
    } else {
        assert(old(body)@ + output_section(title@, output@) =~= old(body)@);
    }
}

/// Words the notification about an execution at the time `stamp`, whose context is made at the
/// time `timestamp`, if the job wants one.
pub fn completion_notice(
    notif: &JobNotificationConfig,
    job_name: &str,
    exec_id_short: &str,
    exec_status: &ExecutionStatus,
    stderr_excerpt: &str,
    stdout: &str,
    stderr: &str,
    stamp: &str,
    timestamp: &str,
) -> (dispatch: Option<Dispatch>)
    requires
        output_fits(*notif, *exec_status, stdout@, stderr@),
    ensures
        optional_dispatch(dispatch) == notice(
            *notif,
            (ExecutionFacts {
                job_name: job_name@,
                exec_id: exec_id_short@,
                status: *exec_status,
                stderr_excerpt: stderr_excerpt@,
                stdout: stdout@,
                stderr: stderr@,
            }),
            stamp@,
            timestamp@,
        ),
{
    if !wants_notice(notif, exec_status) {
        return None;
    }
    let subject = notice_subject(job_name, exec_status);
    let mut body = write_head(job_name, exec_status, exec_id_short, stamp);
    if wants_output(notif, exec_status) {
        append_section(&mut body, "\n--- Output ---\n", stdout);
        append_section(&mut body, "\n--- Error ---\n", stderr);
    } else if !stderr_excerpt.is_empty() {
        body.append("\nError output:\n");
        body.append(stderr_excerpt);
    }
    let context = WebhookContext {
        subject: subject.clone(),
        body: body.clone(),
        job_name: Some(job_name.to_string()),
        status: Some(template_status(exec_status)),
        execution_id: Some(exec_id_short.to_string()),
        stdout: Some(stdout.to_string()),
        stderr: Some(stderr.to_string()),
        timestamp: timestamp.to_string(),
    };
    Some(
        dispatch::send_notification(
            subject.as_str(),
            body.as_str(),
            notif.recipients.as_ref(),
            Some(context),
        ),
    )
}

/// Check if notification should be sent for a completed execution, and start to send it if so.
pub fn notify_execution_complete(
    notif: &JobNotificationConfig,
    job_name: &str,
    exec_id_short: &str,
    exec_status: &ExecutionStatus,
    stderr_excerpt: &str,
    stdout: &str,
    stderr: &str,
) -> (dispatch: Option<Dispatch>)
    requires
        output_fits(*notif, *exec_status, stdout@, stderr@),
    ensures
        exists|written: clock::UtcInstant, made: clock::UtcInstant|
            written.wf() && made.wf() && optional_dispatch(dispatch) == notice(
                *notif,
                (ExecutionFacts {
                    job_name: job_name@,
                    exec_id: exec_id_short@,
                    status: *exec_status,
                    stderr_excerpt: stderr_excerpt@,
                    stdout: stdout@,
                    stderr: stderr@,
                }),
                #[trigger] clock::stamp_of(written),
                #[trigger] clock::rfc3339_of(made),
            ),
{
    let stamp = clock::now_stamp();
    let timestamp = clock::now_rfc3339();
    completion_notice(
        notif,
        job_name,
        exec_id_short,
        exec_status,
        stderr_excerpt,
        stdout,
        stderr,
        stamp.as_str(),
        timestamp.as_str(),
    )
}

/// What stands at the end of a text occurs in it.
proof fn ends_with_contains(start: Seq<char>, end: Seq<char>)
    ensures
        text::contains(start + end, end),
{
    let whole = start + end;
    let tail = whole.skip(start.len() as int);
    assert(tail =~= end);
    assert(tail.take(end.len() as int) =~= end);
    assert(text::starts_with(whole.skip(start.len() as int), end));
}

/// A text without quotes occurs in a text between quotes just where it occurs inside, if its
/// first character is nowhere outside.
proof fn contains_inside(left: Seq<char>, inside: Seq<char>, right: Seq<char>, pat: Seq<char>)
    requires
        pat.len() > 0,
        forall|i: int| 0 <= i < pat.len() ==> pat[i] != '\'',
        forall|i: int| 0 <= i < left.len() ==> left[i] != pat[0],
        forall|i: int| 0 <= i < right.len() ==> right[i] != pat[0],
        right.len() > 0,
        right[0] == '\'',
    ensures
        text::contains(left + inside + right, pat) == text::contains(inside, pat),
{
    let whole = left + inside + right;
    if text::contains(whole, pat) {
        let i = choose|i: int|
            0 <= i <= whole.len() && text::starts_with(#[trigger] whole.skip(i), pat);
        let rest = whole.skip(i);
        assert(rest.take(pat.len() as int)[0] == whole[i]);
        let k = i - left.len();
        let quote = inside.len() - k;
        if quote < pat.len() {
            assert(rest.take(pat.len() as int)[quote] == right[0]);
        }
        assert(inside.skip(k).take(pat.len() as int) =~= rest.take(pat.len() as int));
        assert(text::starts_with(inside.skip(k), pat));
    }
    if text::contains(inside, pat) {
        let k = choose|k: int|
            0 <= k <= inside.len() && text::starts_with(#[trigger] inside.skip(k), pat);
        let i = left.len() + k;
        assert(whole.skip(i).take(pat.len() as int) =~= inside.skip(k).take(pat.len() as int));
        assert(text::starts_with(whole.skip(i), pat));
    }
}

/// What the end of an execution is worded with besides the name of the job does not bring in the
/// words of another end.
proof fn subject_words(job_name: Seq<char>)
    ensures
        text::contains(subject_of(job_name, ExecutionStatus::TimedOut), "succeeded"@)
            == text::contains(job_name, "succeeded"@),
        text::contains(subject_of(job_name, ExecutionStatus::Failed), "succeeded"@)
            == text::contains(job_name, "succeeded"@),
        text::contains(subject_of(job_name, ExecutionStatus::Failed), "timed out"@)
            == text::contains(job_name, "timed out"@),
{
    reveal_strlit("[Kronforce] Job '");
    reveal_strlit("' ");
    reveal_strlit("timed out");
    reveal_strlit("failed");
    reveal_strlit("succeeded");
    let left = "[Kronforce] Job '"@;
    let timed_out = "' "@ + "timed out"@;
    let failed = "' "@ + "failed"@;
    assert(subject_of(job_name, ExecutionStatus::TimedOut) =~= left + job_name + timed_out);
    assert(subject_of(job_name, ExecutionStatus::Failed) =~= left + job_name + failed);
    contains_inside(left, job_name, timed_out, "succeeded"@);
    contains_inside(left, job_name, failed, "succeeded"@);
    contains_inside(left, job_name, failed, "timed out"@);
}

/// On Discord the notification about a success is green, whatever the job is called.
pub proof fn success_is_green(job_name: Seq<char>)
    ensures
        webhook::embed_color(subject_of(job_name, ExecutionStatus::Succeeded)) == 0x2ECC71,
{
    ends_with_contains("[Kronforce] Job '"@ + job_name + "' "@, "succeeded"@);
}

/// On Discord the notification about a timeout is orange, unless the name of the job holds the
/// word for success.
pub proof fn timeout_is_orange(job_name: Seq<char>)
    requires
        !text::contains(job_name, "succeeded"@),
    ensures
        webhook::embed_color(subject_of(job_name, ExecutionStatus::TimedOut)) == 0xF39C12,
{
    subject_words(job_name);
    ends_with_contains("[Kronforce] Job '"@ + job_name + "' "@, "timed out"@);
}

/// On Discord the notification about a failure is red, unless the name of the job holds the words
/// for success or for a timeout.
pub proof fn failure_is_red(job_name: Seq<char>)
    requires
        !text::contains(job_name, "succeeded"@),
        !text::contains(job_name, "timed out"@),
    ensures
        webhook::embed_color(subject_of(job_name, ExecutionStatus::Failed)) == 0xE74C3C,
{
    subject_words(job_name);
}

/// A notification never tells an execution's output and the excerpt from its errors together: the
/// excerpt makes no difference to a body with output, and the output none to one without.
pub proof fn output_or_excerpt(
    head: Seq<char>,
    excerpt: Seq<char>,
    other_excerpt: Seq<char>,
    stdout: Seq<char>,
    stderr: Seq<char>,
    other_stdout: Seq<char>,
    other_stderr: Seq<char>,
)
    ensures
        body_of(head, true, excerpt, stdout, stderr) == body_of(
            head,
            true,
            other_excerpt,
            stdout,
            stderr,
        ),
        body_of(head, false, excerpt, stdout, stderr) == body_of(
            head,
            false,
            excerpt,
            other_stdout,
            other_stderr,
        ),
{
}

/// A job that wants to hear of failures, or of failed assertions, gets a notification about every
/// execution that failed or ran out of time, whatever its other switches are, and a job that wants
/// neither gets none. A job that wants to hear of successes gets one about every success, whatever
/// its other switches are, and no other job does. No notification is about any other end.
pub proof fn switches_decide_about_notices(
    notif: JobNotificationConfig,
    facts: ExecutionFacts,
    stamp: Seq<char>,
    timestamp: Seq<char>,
)
    ensures
        facts.status is Failed || facts.status is TimedOut ==> (notice(
            notif,
            facts,
            stamp,
            timestamp,
        ) is Some <==> notif.on_failure || notif.on_assertion_failure),
        facts.status is Succeeded ==> (notice(notif, facts, stamp, timestamp) is Some
            <==> notif.on_success),
        facts.status is Other ==> notice(notif, facts, stamp, timestamp) is None,
        should_notify(notif, facts.status) <==> notice(notif, facts, stamp, timestamp) is Some,
{
}

/// Two jobs that differ in nothing but whether they want to hear of successes get the same
/// notifications about failures and timeouts, and two that differ in nothing but whether they want
/// to hear of failures and failed assertions get the same about successes.
pub proof fn switches_do_not_interfere(
    a: JobNotificationConfig,
    b: JobNotificationConfig,
    facts: ExecutionFacts,
    stamp: Seq<char>,
    timestamp: Seq<char>,
)
    requires
        a.email_output == b.email_output,
        a.recipients == b.recipients,
    ensures
        a.on_failure == b.on_failure && a.on_assertion_failure == b.on_assertion_failure && (
        facts.status is Failed || facts.status is TimedOut) ==> notice(a, facts, stamp, timestamp)
            == notice(b, facts, stamp, timestamp),
        a.on_success == b.on_success && facts.status is Succeeded ==> notice(
            a,
            facts,
            stamp,
            timestamp,
        ) == notice(b, facts, stamp, timestamp),
{
}

/// A job that hears of failures hears of timeouts too, and with every switch that is turned on it
/// hears of no execution less.
pub proof fn more_switches_more_notices(
    fewer: JobNotificationConfig,
    more: JobNotificationConfig,
    facts: ExecutionFacts,
    stamp: Seq<char>,
    timestamp: Seq<char>,
)
    requires
        fewer.on_failure ==> more.on_failure,
        fewer.on_success ==> more.on_success,
        fewer.on_assertion_failure ==> more.on_assertion_failure,
    ensures
        notice(fewer, facts, stamp, timestamp) is Some ==> notice(
            more,
            facts,
            stamp,
            timestamp,
        ) is Some,
        should_notify(fewer, ExecutionStatus::Failed) == should_notify(
            fewer,
            ExecutionStatus::TimedOut,
        ),
{
}

/// The subject of a notification names the job and tells how its execution ended.
pub proof fn subject_tells_job_and_end(
    notif: JobNotificationConfig,
    facts: ExecutionFacts,
    stamp: Seq<char>,
    timestamp: Seq<char>,
)
    ensures
        facts.status is Succeeded ==> subject_of(facts.job_name, facts.status)
            == "[Kronforce] Job '"@ + facts.job_name + "' "@ + "succeeded"@,
        facts.status is Failed ==> subject_of(facts.job_name, facts.status)
            == "[Kronforce] Job '"@ + facts.job_name + "' "@ + "failed"@,
        facts.status is TimedOut ==> subject_of(facts.job_name, facts.status)
            == "[Kronforce] Job '"@ + facts.job_name + "' "@ + "timed out"@,
        facts.status is Other ==> subject_of(facts.job_name, facts.status)
            == "[Kronforce] Job '"@ + facts.job_name + "' "@ + "completed"@,
        notice(notif, facts, stamp, timestamp) matches Some(d) ==> d.subject == subject_of(
            facts.job_name,
            facts.status,
        ),
{
}

/// The output of a job goes into the notification about it where the job wants it always, and
/// where it wants it for failures and the execution failed or ran out of time; nowhere else.
pub proof fn output_goes_in_where_wanted(notif: JobNotificationConfig, status: ExecutionStatus)
    ensures
        notif.email_output matches Some(when) ==> (when@ == "always"@ ==> include_output(
            notif,
            status,
        )),
        notif.email_output matches Some(when) ==> (when@ == "failure"@ ==> (include_output(
            notif,
            status,
        ) <==> status is Failed || status is TimedOut)),
        notif.email_output matches Some(when) ==> (when@ != "always"@ && when@ != "failure"@
            ==> !include_output(notif, status)),
        notif.email_output is None ==> !include_output(notif, status),
{
    reveal_strlit("always");
    reveal_strlit("failure");
    assert("always"@.len() == 6 && "failure"@.len() == 7);
}

/// The body of a notification tells the job, how its execution ended, the execution and the time,
/// one on each line. Where the output goes in, what the job printed and what it printed about
/// errors follow under their titles, up to 50,000 bytes of each, and nothing follows for the one
/// that is empty; otherwise the excerpt from the errors follows, if there is one.
pub proof fn body_tells_the_execution(
    notif: JobNotificationConfig,
    facts: ExecutionFacts,
    stamp: Seq<char>,
    timestamp: Seq<char>,
    name: Seq<char>,
)
    requires
        facts.status is Succeeded ==> name == "Succeeded"@,
        facts.status is Failed ==> name == "Failed"@,
        facts.status is TimedOut ==> name == "TimedOut"@,
    ensures
        notice(notif, facts, stamp, timestamp) matches Some(d) ==> ({
            let head = "Job: "@ + facts.job_name + "\nStatus: "@ + name + "\nExecution: "@
                + facts.exec_id + "\nTime: "@ + stamp + "\n"@;
            let out = "\n--- Output ---\n"@ + text::clip(facts.stdout, 50_000) + "\n"@;
            let err = "\n--- Error ---\n"@ + text::clip(facts.stderr, 50_000) + "\n"@;
            let shows = include_output(notif, facts.status);
            &&& shows && facts.stdout.len() > 0 && facts.stderr.len() > 0 ==> d.body == head + out
                + err
            &&& shows && facts.stdout.len() > 0 && facts.stderr.len() == 0 ==> d.body == head + out
            &&& shows && facts.stdout.len() == 0 && facts.stderr.len() > 0 ==> d.body == head + err
            &&& shows && facts.stdout.len() == 0 && facts.stderr.len() == 0 ==> d.body == head
            &&& !shows && facts.stderr_excerpt.len() > 0 ==> d.body == head
                + "\nError output:\n"@ + facts.stderr_excerpt
            &&& !shows && facts.stderr_excerpt.len() == 0 ==> d.body == head
        }),
{
    let head = "Job: "@ + facts.job_name + "\nStatus: "@ + name + "\nExecution: "@ + facts.exec_id
        + "\nTime: "@ + stamp + "\n"@;
    let out = "\n--- Output ---\n"@ + text::clip(facts.stdout, 50_000) + "\n"@;
    let err = "\n--- Error ---\n"@ + text::clip(facts.stderr, 50_000) + "\n"@;
    let empty = Seq::<char>::empty();
    assert(head + empty =~= head);
    assert(head + out + empty =~= head + out);
}

/// The templates of webhooks learn what the notification says, and of the execution the name of
/// the job, how it ended, which it is, all of what it printed and all of what it printed about
/// errors.
pub proof fn context_tells_the_execution(
    notif: JobNotificationConfig,
    facts: ExecutionFacts,
    stamp: Seq<char>,
    timestamp: Seq<char>,
)
    ensures
        notice(notif, facts, stamp, timestamp) matches Some(d) ==> (d.context matches Some(c) && {
            &&& c.subject == d.subject
            &&& c.body == d.body
            &&& c.job_name == Some(facts.job_name)
            &&& facts.status is Succeeded ==> c.status == Some("succeeded"@)
            &&& facts.status is Failed ==> c.status == Some("failed"@)
            &&& facts.status is TimedOut ==> c.status == Some("timed_out"@)
            &&& c.execution_id == Some(facts.exec_id)
            &&& c.stdout == Some(facts.stdout)
            &&& c.stderr == Some(facts.stderr)
            &&& c.timestamp == timestamp
        }),
{
}

/// The notification about an execution goes to all recipients that the job has of its own, and a
/// job without any leaves it to the stored ones.
pub proof fn notice_goes_to_the_jobs_recipients(
    notif: JobNotificationConfig,
    facts: ExecutionFacts,
    stamp: Seq<char>,
    timestamp: Seq<char>,
)
    ensures
        notice(notif, facts, stamp, timestamp) matches Some(d) ==> {
            &&& notif.recipients matches Some(own) ==> (own.emails@.len() > 0 || own.phones@.len()
                > 0 ==> d.recipients.emails == own.emails@ && d.recipients.phones == own.phones@
                && d.stage == dispatch::Stage::Email)
            &&& notif.recipients matches Some(own) ==> (own.emails@.len() == 0
                && own.phones@.len() == 0 ==> d.stage == dispatch::Stage::Recipients)
            &&& notif.recipients is None ==> d.stage == dispatch::Stage::Recipients
        },
{
}

/// A notification can be worded unless it shows output that has more than 50,000 bytes and no
/// character that ends there.
pub proof fn output_fits_unless_cut_inside_a_character(
    notif: JobNotificationConfig,
    status: ExecutionStatus,
    stdout: Seq<char>,
    stderr: Seq<char>,
)
    ensures
        output_fits(notif, status, stdout, stderr) <==> !should_notify(notif, status)
            || !include_output(notif, status) || (text::cuts_cleanly(stdout, 50_000)
            && text::cuts_cleanly(stderr, 50_000)),
{
}

/// A notification shows as itself, and none as none.
pub proof fn optional_dispatch_shows_itself(d: Dispatch)
    ensures
        optional_dispatch(Some(d)) == Some(d@),
        optional_dispatch(None) is None,
{
}

/// A job is told of an execution just where it wants to be: of failures and timeouts where it
/// wants to hear of failures or of failed assertions, and of successes where it wants to hear of
/// these, whatever its other switches are.
pub proof fn job_is_told_what_it_wants(
    notif: JobNotificationConfig,
    status: ExecutionStatus,
    wanted: bool,
)
    requires
        call_ensures(wants_notice, (&notif, &status), wanted),
    ensures
        status is Failed || status is TimedOut ==> (wanted <==> notif.on_failure
            || notif.on_assertion_failure),
        status is Succeeded ==> (wanted <==> notif.on_success),
        status is Other ==> !wanted,
{
}

/// The notification about an execution exists just where the job wants one, names the job in its
/// subject, and has the job's own recipients where it has any.
pub proof fn notice_is_made_where_wanted(
    notif: JobNotificationConfig,
    job_name: &str,
    exec_id: &str,
    status: ExecutionStatus,
    excerpt: &str,
    stdout: &str,
    stderr: &str,
    stamp: &str,
    timestamp: &str,
    dispatch: Option<Dispatch>,
)
    requires
        call_ensures(
            completion_notice,
            (&notif, job_name, exec_id, &status, excerpt, stdout, stderr, stamp, timestamp),
            dispatch,
        ),
    ensures
        status is Failed || status is TimedOut ==> (dispatch is Some <==> notif.on_failure
            || notif.on_assertion_failure),
        status is Succeeded ==> (dispatch is Some <==> notif.on_success),
        status is Other ==> dispatch is None,
        dispatch matches Some(d) ==> {
            &&& status is Failed ==> d.subject@ == "[Kronforce] Job '"@ + job_name@ + "' "@
                + "failed"@
            &&& status is TimedOut ==> d.subject@ == "[Kronforce] Job '"@ + job_name@ + "' "@
                + "timed out"@
            &&& status is Succeeded ==> d.subject@ == "[Kronforce] Job '"@ + job_name@ + "' "@
                + "succeeded"@
            &&& notif.recipients matches Some(own) ==> (own.emails@.len() > 0 || own.phones@.len()
                > 0 ==> d.recipients.emails@ == own.emails@ && d.recipients.phones@ == own.phones@)
            &&& d.context matches Some(c) && {
                &&& c.subject@ == d.subject@
                &&& c.body@ == d.body@
                &&& c.job_name matches Some(t) && t@ == job_name@
                &&& c.execution_id matches Some(t) && t@ == exec_id@
                &&& c.stdout matches Some(t) && t@ == stdout@
                &&& c.stderr matches Some(t) && t@ == stderr@
                &&& c.timestamp@ == timestamp@
            }
        },
{
    if let Some(d) = dispatch {
        assert(d@.context == webhook::optional_context(d.context));
    }
}

}
