//! Webhook templates: a text in which `{{placeholder}}` markers stand for the values of a
//! notification.
use vstd::prelude::*;
use crate::text;

verus! {

/// Context passed to webhook template rendering. Contains all available placeholder values.
#[derive(Debug)]
pub struct WebhookContext {
    pub subject: String,
    pub body: String,
    pub job_name: Option<String>,
    pub status: Option<String>,
    pub execution_id: Option<String>,
    pub stdout: Option<String>,
    pub stderr: Option<String>,
    pub timestamp: String,
}

/// A context as plain texts.
pub struct ContextView {
    pub subject: Seq<char>,
    pub body: Seq<char>,
    pub job_name: Option<Seq<char>>,
    pub status: Option<Seq<char>>,
    pub execution_id: Option<Seq<char>>,
    pub stdout: Option<Seq<char>>,
    pub stderr: Option<Seq<char>>,
    pub timestamp: Seq<char>,
}

/// The characters of an optional text.
pub open spec fn optional_text(text: Option<String>) -> Option<Seq<char>> {
    match text {
        Some(t) => Some(t@),
        None => None,
    }
}

/// An optional text, where none counts as the empty one.
pub open spec fn or_empty(text: Option<Seq<char>>) -> Seq<char> {
    match text {
        Some(t) => t,
        None => Seq::empty(),
    }
}

impl View for WebhookContext {
    type V = ContextView;

    open spec fn view(&self) -> ContextView {
        ContextView {
            subject: self.subject@,
            body: self.body@,
            job_name: optional_text(self.job_name),
            status: optional_text(self.status),
            execution_id: optional_text(self.execution_id),
            stdout: optional_text(self.stdout),
            stderr: optional_text(self.stderr),
            timestamp: self.timestamp@,
        }
    }
}

/// The context of a notification that is about no execution.
pub open spec fn plain_context(
    subject: Seq<char>,
    body: Seq<char>,
    timestamp: Seq<char>,
) -> ContextView {
    ContextView {
        subject,
        body,
        job_name: None,
        status: None,
        execution_id: None,
        stdout: None,
        stderr: None,
        timestamp,
    }
}

impl Default for WebhookContext {
    fn default() -> (context: Self)
        ensures
            context@ == plain_context(Seq::empty(), Seq::empty(), Seq::empty()),
    {
        WebhookContext {
            subject: String::new(),
            body: String::new(),
            job_name: None,
            status: None,
            execution_id: None,
            stdout: None,
            stderr: None,
            timestamp: String::new(),
        }
    }
}

impl Clone for WebhookContext {
    fn clone(&self) -> (copy: Self)
        ensures
            copy@ == self@,
    {
        WebhookContext {
            subject: self.subject.clone(),
            body: self.body.clone(),
            job_name: self.job_name.clone(),
            status: self.status.clone(),
            execution_id: self.execution_id.clone(),
            stdout: self.stdout.clone(),
            stderr: self.stderr.clone(),
            timestamp: self.timestamp.clone(),
        }
    }
}

/// The text in `text`, or the empty one.
pub fn text_or_empty(text: &Option<String>) -> (t: &str)
    ensures
        t@ == or_empty(optional_text(*text)),
{
    match text {
        Some(t) => t.as_str(),
        None => {
            proof {
                reveal_strlit("");
            }
            assert(""@ =~= Seq::<char>::empty());
            ""
        },
    }
}

/// The `k`-th placeholder, in the order in which they are replaced.
pub open spec fn placeholder(k: int) -> Seq<char> {
    if k == 0 {
        "{{subject}}"@
    } else if k == 1 {
        "{{body}}"@
    } else if k == 2 {
        "{{job_name}}"@
    } else if k == 3 {
        "{{status}}"@
    } else if k == 4 {
        "{{execution_id}}"@
    } else if k == 5 {
        "{{stdout}}"@
    } else if k == 6 {
        "{{stderr}}"@
    } else {
        "{{timestamp}}"@
    }
}

/// What the `k`-th placeholder stands for. What the context does not hold is empty.
pub open spec fn slot_value(ctx: ContextView, k: int) -> Seq<char> {
    if k == 0 {
        ctx.subject
    } else if k == 1 {
        ctx.body
    } else if k == 2 {
        or_empty(ctx.job_name)
    } else if k == 3 {
        or_empty(ctx.status)
    } else if k == 4 {
        or_empty(ctx.execution_id)
    } else if k == 5 {
        or_empty(ctx.stdout)
    } else if k == 6 {
        or_empty(ctx.stderr)
    } else {
        ctx.timestamp
    }
}

/// `template` after the first `n` placeholders have been replaced, one after the other.
pub open spec fn render_first(template: Seq<char>, ctx: ContextView, n: nat) -> Seq<char>
    decreases n,
{
    if n == 0 {
        template
    } else {
        text::replace_all(
            render_first(template, ctx, (n - 1) as nat),
            placeholder(n - 1),
            slot_value(ctx, n - 1),
        )
    }
}

/// `template` with the placeholders replaced by the values of the context, one after the other:
/// a placeholder that a value brings in is replaced too, if its turn comes later.
pub open spec fn render(template: Seq<char>, ctx: ContextView) -> Seq<char> {
    render_first(template, ctx, 8)
}

/// Renders a template string by replacing `{{placeholder}}` markers with values from the
/// context.
pub fn render_template(template: &str, ctx: &WebhookContext) -> (rendered: String)
    ensures
        rendered@ == render(template@, ctx@),
{
    proof {
        reveal_with_fuel(render_first, 9);
        placeholders_are_markers();
        assert(placeholder(0).len() > 0 && placeholder(1).len() > 0 && placeholder(2).len() > 0
            && placeholder(3).len() > 0 && placeholder(4).len() > 0 && placeholder(5).len() > 0
            && placeholder(6).len() > 0 && placeholder(7).len() > 0);
    }
    let result = text::text_replace(template, "{{subject}}", ctx.subject.as_str());
    let result = text::text_replace(result.as_str(), "{{body}}", ctx.body.as_str());
    let result = text::text_replace(result.as_str(), "{{job_name}}", text_or_empty(&ctx.job_name));
    let result = text::text_replace(result.as_str(), "{{status}}", text_or_empty(&ctx.status));
    let result = text::text_replace(
        result.as_str(),
        "{{execution_id}}",
        text_or_empty(&ctx.execution_id),
    );
    let result = text::text_replace(result.as_str(), "{{stdout}}", text_or_empty(&ctx.stdout));
    let result = text::text_replace(result.as_str(), "{{stderr}}", text_or_empty(&ctx.stderr));
    text::text_replace(result.as_str(), "{{timestamp}}", ctx.timestamp.as_str())
}

/// Every placeholder starts with two opening braces and has no other one, and the first six
/// characters tell the placeholders apart.
proof fn placeholders_are_markers()
    ensures
        forall|k: int|
            0 <= k < 8 ==> {
                let p = #[trigger] placeholder(k);
                &&& p.len() >= 6
                &&& p[0] == '{'
                &&& p[1] == '{'
                &&& forall|i: int| 2 <= i < p.len() ==> p[i] != '{'
            },
        forall|j: int, k: int|
            0 <= j < 8 && 0 <= k < 8 && j != k ==> (#[trigger] placeholder(j)).take(6)
                != (#[trigger] placeholder(k)).take(6),
{
    reveal_strlit("{{subject}}");
    reveal_strlit("{{body}}");
    reveal_strlit("{{job_name}}");
    reveal_strlit("{{status}}");
    reveal_strlit("{{execution_id}}");
    reveal_strlit("{{stdout}}");
    reveal_strlit("{{stderr}}");
    reveal_strlit("{{timestamp}}");
    assert forall|j: int, k: int| 0 <= j < 8 && 0 <= k < 8 && j != k implies (
    #[trigger] placeholder(j)).take(6) != (#[trigger] placeholder(k)).take(6) by {
        let a = placeholder(j);
        let b = placeholder(k);
        if a.take(6) == b.take(6) {
            assert(a.take(6)[2] == b.take(6)[2]);
            assert(a.take(6)[3] == b.take(6)[3]);
            assert(a.take(6)[4] == b.take(6)[4]);
            assert(a.take(6)[5] == b.take(6)[5]);
        }
    }
}

/// The placeholder that `t` starts with, or 8 where it starts with none.
pub open spec fn leading_slot(t: Seq<char>) -> int {
    if text::starts_with(t, placeholder(0)) {
        0
    } else if text::starts_with(t, placeholder(1)) {
        1
    } else if text::starts_with(t, placeholder(2)) {
        2
    } else if text::starts_with(t, placeholder(3)) {
        3
    } else if text::starts_with(t, placeholder(4)) {
        4
    } else if text::starts_with(t, placeholder(5)) {
        5
    } else if text::starts_with(t, placeholder(6)) {
        6
    } else if text::starts_with(t, placeholder(7)) {
        7
    } else {
        8
    }
}

/// `t` with the first `n` placeholders replaced in one pass from left to right, and the others
/// left as they are.
pub open spec fn substitute_first(t: Seq<char>, ctx: ContextView, n: int) -> Seq<char>
    decreases t.len(),
    via substitute_first_shrinks
{
    if t.len() == 0 {
        t
    } else if leading_slot(t) < 8 {
        let k = leading_slot(t);
        let piece = if k < n {
            slot_value(ctx, k)
        } else {
            placeholder(k)
        };
        piece + substitute_first(t.skip(placeholder(k).len() as int), ctx, n)
    } else {
        seq![t[0]] + substitute_first(t.skip(1), ctx, n)
    }
}

#[via_fn]
proof fn substitute_first_shrinks(t: Seq<char>, ctx: ContextView, n: int) {
    placeholders_are_markers();
    if leading_slot(t) < 8 {
        assert(placeholder(leading_slot(t)).len() >= 6);
    }
}

/// `t` with every placeholder replaced by its value in one pass from left to right.
pub open spec fn substitute(t: Seq<char>, ctx: ContextView) -> Seq<char> {
    substitute_first(t, ctx, 8)
}

/// When the turn of the `n`-th placeholder comes, it stands only where `t` itself has it: none
/// begins in the text around the placeholders, or in a value that was put in.
pub open spec fn none_arises_at(t: Seq<char>, ctx: ContextView, n: int) -> bool
    decreases t.len(),
    via none_arises_shrinks
{
    if t.len() == 0 {
        true
    } else if leading_slot(t) < 8 {
        let k = leading_slot(t);
        let rest = t.skip(placeholder(k).len() as int);
        let s = slot_value(ctx, k) + substitute_first(rest, ctx, n);
        &&& k < n ==> forall|i: int|
            0 <= i < slot_value(ctx, k).len() ==> !text::starts_with(
                #[trigger] s.skip(i),
                placeholder(n),
            )
        &&& none_arises_at(rest, ctx, n)
    } else {
        let s = seq![t[0]] + substitute_first(t.skip(1), ctx, n);
        &&& !text::starts_with(s, placeholder(n))
        &&& none_arises_at(t.skip(1), ctx, n)
    }
}

#[via_fn]
proof fn none_arises_shrinks(t: Seq<char>, ctx: ContextView, n: int) {
    placeholders_are_markers();
    if leading_slot(t) < 8 {
        assert(placeholder(leading_slot(t)).len() >= 6);
    }
}

/// Replacing brings no placeholder into being that the template does not have itself.
pub open spec fn none_arises(t: Seq<char>, ctx: ContextView) -> bool {
    forall|n: int| 0 <= n < 8 ==> #[trigger] none_arises_at(t, ctx, n)
}

/// A start in which the pattern does not begin is not touched by its replacement.
proof fn replace_passes(start: Seq<char>, rest: Seq<char>, pat: Seq<char>, rep: Seq<char>)
    requires
        pat.len() > 0,
        forall|i: int|
            0 <= i < start.len() ==> !text::starts_with(#[trigger] (start + rest).skip(i), pat),
    ensures
        text::replace_all(start + rest, pat, rep) == start + text::replace_all(rest, pat, rep),
    decreases start.len(),
{
    let s = start + rest;
    if start.len() == 0 {
        assert(s =~= rest);
        assert(start + text::replace_all(rest, pat, rep) =~= text::replace_all(rest, pat, rep));
    } else {
        assert(s.skip(0) =~= s);
        assert(s.skip(1) =~= start.skip(1) + rest);
        assert forall|i: int| 0 <= i < start.skip(1).len() implies !text::starts_with(
            #[trigger] (start.skip(1) + rest).skip(i),
            pat,
        ) by {
            assert((start.skip(1) + rest).skip(i) =~= s.skip(1 + i));
        }
        replace_passes(start.skip(1), rest, pat, rep);
        assert(start + text::replace_all(rest, pat, rep) =~= seq![s[0]] + (start.skip(1)
            + text::replace_all(rest, pat, rep)));
    }
}

/// A placeholder does not begin where there is no opening brace.
proof fn needs_brace(s: Seq<char>, k: int)
    requires
        0 <= k < 8,
        s.len() > 0,
        s[0] != '{' || (s.len() > 1 && s[1] != '{'),
    ensures
        !text::starts_with(s, placeholder(k)),
{
    placeholders_are_markers();
    let p = placeholder(k);
    if text::starts_with(s, p) {
        assert(s.take(p.len() as int)[0] == s[0]);
        assert(s.take(p.len() as int)[1] == s[1]);
    }
}

/// A placeholder is not touched by the replacement of another one.
proof fn replace_passes_other(j: int, k: int, rest: Seq<char>, rep: Seq<char>)
    requires
        0 <= j < 8,
        0 <= k < 8,
        j != k,
    ensures
        text::replace_all(placeholder(j) + rest, placeholder(k), rep) == placeholder(j)
            + text::replace_all(rest, placeholder(k), rep),
{
    placeholders_are_markers();
    let p = placeholder(j);
    let pat = placeholder(k);
    let s = p + rest;
    assert forall|i: int| 0 <= i < p.len() implies !text::starts_with(
        #[trigger] s.skip(i),
        pat,
    ) by {
        if i == 0 {
            if text::starts_with(s.skip(0), pat) {
                assert(s.skip(0) =~= s);
                assert(p.take(6) =~= s.take(6));
                assert(pat.take(6) =~= s.take(pat.len() as int).take(6));
                assert(s.take(pat.len() as int).take(6) =~= s.take(6));
            }
        } else {
            assert(s.skip(i)[0] == p[i]);
            assert(i == 1 ==> s.skip(i)[1] == p[2]);
            needs_brace(s.skip(i), k);
        }
    }
    replace_passes(p, rest, pat, rep);
}

/// Replacing one more placeholder is one more step of the single pass.
proof fn substitution_step(t: Seq<char>, ctx: ContextView, n: int)
    requires
        0 <= n < 8,
        none_arises_at(t, ctx, n),
    ensures
        text::replace_all(substitute_first(t, ctx, n), placeholder(n), slot_value(ctx, n))
            == substitute_first(t, ctx, n + 1),
    decreases t.len(),
{
    placeholders_are_markers();
    let pat = placeholder(n);
    let rep = slot_value(ctx, n);
    if t.len() == 0 {
    } else if leading_slot(t) < 8 {
        let k = leading_slot(t);
        let rest = t.skip(placeholder(k).len() as int);
        substitution_step(rest, ctx, n);
        let done = substitute_first(rest, ctx, n);
        if k < n {
            replace_passes(slot_value(ctx, k), done, pat, rep);
        } else if k == n {
            assert((pat + done).take(pat.len() as int) =~= pat);
            assert((pat + done).skip(pat.len() as int) =~= done);
        } else {
            replace_passes_other(k, n, done, rep);
        }
    } else {
        substitution_step(t.skip(1), ctx, n);
        let done = substitute_first(t.skip(1), ctx, n);
        assert((seq![t[0]] + done).skip(1) =~= done);
    }
}

/// With nothing replaced the single pass changes nothing.
proof fn substitute_none(t: Seq<char>, ctx: ContextView)
    ensures
        substitute_first(t, ctx, 0) == t,
    decreases t.len(),
{
    placeholders_are_markers();
    if t.len() == 0 {
    } else if leading_slot(t) < 8 {
        let p = placeholder(leading_slot(t));
        substitute_none(t.skip(p.len() as int), ctx);
        assert(t =~= t.take(p.len() as int) + t.skip(p.len() as int));
    } else {
        substitute_none(t.skip(1), ctx);
        assert(t =~= seq![t[0]] + t.skip(1));
    }
}

/// Rendering replaces every placeholder by its value and leaves everything else as it is, in one
/// pass, unless replacing brings another placeholder into being.
pub proof fn render_is_substitution(template: Seq<char>, ctx: ContextView)
    requires
        none_arises(template, ctx),
    ensures
        render(template, ctx) == substitute(template, ctx),
{
    reveal_with_fuel(render_first, 9);
    substitute_none(template, ctx);
    assert(none_arises_at(template, ctx, 0));
    substitution_step(template, ctx, 0);
    assert(none_arises_at(template, ctx, 1));
    substitution_step(template, ctx, 1);
    assert(none_arises_at(template, ctx, 2));
    substitution_step(template, ctx, 2);
    assert(none_arises_at(template, ctx, 3));
    substitution_step(template, ctx, 3);
    assert(none_arises_at(template, ctx, 4));
    substitution_step(template, ctx, 4);
    assert(none_arises_at(template, ctx, 5));
    substitution_step(template, ctx, 5);
    assert(none_arises_at(template, ctx, 6));
    substitution_step(template, ctx, 6);
    assert(none_arises_at(template, ctx, 7));
    substitution_step(template, ctx, 7);
}

/// No value of the context holds an opening brace.
pub open spec fn brace_free(ctx: ContextView) -> bool {
    forall|k: int, i: int|
        0 <= k < 8 && 0 <= i < slot_value(ctx, k).len() ==> #[trigger] slot_value(ctx, k)[i] != '{'
}

/// No text in front of a placeholder of `t` could be the start of one.
pub open spec fn no_open_marker(t: Seq<char>) -> bool {
    forall|i: int, j: int, k: int|
        #![trigger t.subrange(i, j), placeholder(k)]
        0 <= i < j < t.len() && leading_slot(t.skip(i)) == 8 && leading_slot(t.skip(j)) < 8 && 0
            <= k < 8 ==> !text::starts_with(placeholder(k), t.subrange(i, j))
}

/// Where the first placeholder of `t` begins, or the end of `t`.
spec fn next_slot(t: Seq<char>) -> int
    decreases t.len(),
{
    if t.len() == 0 || leading_slot(t) < 8 {
        0
    } else {
        1 + next_slot(t.skip(1))
    }
}

/// The single pass leaves everything in front of the first placeholder as it is.
proof fn substitute_keeps_run(t: Seq<char>, ctx: ContextView, n: int)
    ensures
        0 <= next_slot(t) <= t.len(),
        next_slot(t) <= substitute_first(t, ctx, n).len(),
        substitute_first(t, ctx, n).take(next_slot(t)) == t.take(next_slot(t)),
        next_slot(t) < t.len() ==> leading_slot(t.skip(next_slot(t))) < 8,
        next_slot(t) == t.len() ==> substitute_first(t, ctx, n) == t,
    decreases t.len(),
{
    if t.len() == 0 || leading_slot(t) < 8 {
        assert(t.skip(0) =~= t);
        assert(substitute_first(t, ctx, n).take(0) =~= t.take(0));
    } else {
        let rest = t.skip(1);
        substitute_keeps_run(rest, ctx, n);
        let j = next_slot(rest);
        let done = substitute_first(rest, ctx, n);
        assert(rest.skip(j) =~= t.skip(1 + j));
        assert((seq![t[0]] + done).take(1 + j) =~= seq![t[0]] + done.take(j));
        assert(t.take(1 + j) =~= seq![t[0]] + rest.take(j));
        assert(t =~= seq![t[0]] + rest);
    }
}

/// A text keeps its closed markers when its start is dropped.
proof fn no_open_marker_after(t: Seq<char>, m: int)
    requires
        0 <= m <= t.len(),
        no_open_marker(t),
    ensures
        no_open_marker(t.skip(m)),
{
    let rest = t.skip(m);
    assert forall|i: int, j: int, k: int|
        #![trigger rest.subrange(i, j), placeholder(k)]
        0 <= i < j < rest.len() && leading_slot(rest.skip(i)) == 8 && leading_slot(rest.skip(j))
            < 8 && 0 <= k < 8 implies !text::starts_with(placeholder(k), rest.subrange(i, j)) by {
        assert(rest.skip(i) =~= t.skip(m + i));
        assert(rest.skip(j) =~= t.skip(m + j));
        assert(rest.subrange(i, j) =~= t.subrange(m + i, m + j));
    }
}

/// A text that starts with a placeholder has one in front.
proof fn leading_slot_found(t: Seq<char>, n: int)
    requires
        0 <= n < 8,
        text::starts_with(t, placeholder(n)),
    ensures
        leading_slot(t) < 8,
{
}

/// No placeholder arises where the markers are closed and the values have no opening braces.
proof fn closed_markers_stay(t: Seq<char>, ctx: ContextView, n: int)
    requires
        0 <= n < 8,
        no_open_marker(t),
        brace_free(ctx),
    ensures
        none_arises_at(t, ctx, n),
    decreases t.len(),
{
    placeholders_are_markers();
    let pat = placeholder(n);
    if t.len() == 0 {
    } else if leading_slot(t) < 8 {
        let k = leading_slot(t);
        let rest = t.skip(placeholder(k).len() as int);
        no_open_marker_after(t, placeholder(k).len() as int);
        closed_markers_stay(rest, ctx, n);
        let value = slot_value(ctx, k);
        let s = value + substitute_first(rest, ctx, n);
        assert forall|i: int| 0 <= i < value.len() implies !text::starts_with(
            #[trigger] s.skip(i),
            pat,
        ) by {
            assert(s.skip(i)[0] == value[i]);
            needs_brace(s.skip(i), n);
        }
    } else {
        no_open_marker_after(t, 1);
        closed_markers_stay(t.skip(1), ctx, n);
        let s = substitute_first(t, ctx, n);
        if text::starts_with(s, pat) {
            substitute_keeps_run(t, ctx, n);
            let j = next_slot(t);
            assert(t.skip(0) =~= t);
            if pat.len() <= j {
                assert(t.take(pat.len() as int) =~= t.take(j).take(pat.len() as int));
                assert(s.take(pat.len() as int) =~= s.take(j).take(pat.len() as int));
                leading_slot_found(t, n);
            } else if j < t.len() {
                assert(pat.take(j) =~= s.take(pat.len() as int).take(j));
                assert(s.take(pat.len() as int).take(j) =~= s.take(j));
                assert(t.subrange(0, j) =~= t.take(j));
                assert(text::starts_with(pat, t.subrange(0, j)));
            }
            assert(false);
        }
    }
}

/// Rendering replaces every placeholder by its value and leaves everything else as it is, in one
/// pass, where no text in front of a placeholder could be the start of one and no value holds an
/// opening brace.
pub proof fn render_replaces_closed_markers(template: Seq<char>, ctx: ContextView)
    requires
        no_open_marker(template),
        brace_free(ctx),
    ensures
        render(template, ctx) == substitute(template, ctx),
{
    assert forall|n: int| 0 <= n < 8 implies #[trigger] none_arises_at(template, ctx, n) by {
        closed_markers_stay(template, ctx, n);
    }
    render_is_substitution(template, ctx);
}

/// A text without the pattern is not changed by its replacement.
proof fn replace_without_match(s: Seq<char>, pat: Seq<char>, rep: Seq<char>)
    requires
        !text::contains(s, pat),
    ensures
        text::replace_all(s, pat, rep) == s,
    decreases s.len(),
{
    if s.len() > 0 && pat.len() > 0 {
        assert(s.skip(0) =~= s);
        assert forall|i: int| 0 <= i <= s.skip(1).len() implies !text::starts_with(
            #[trigger] s.skip(1).skip(i),
            pat,
        ) by {
            assert(s.skip(1).skip(i) =~= s.skip(1 + i));
        }
        replace_without_match(s.skip(1), pat, rep);
        assert(s =~= seq![s[0]] + s.skip(1));
    }
}

/// A template without placeholders is rendered as it is, whatever the context.
pub proof fn render_keeps_plain_templates(template: Seq<char>, ctx: ContextView)
    requires
        forall|k: int| 0 <= k < 8 ==> !text::contains(template, #[trigger] placeholder(k)),
    ensures
        render(template, ctx) == template,
{
    reveal_with_fuel(render_first, 9);
    replace_without_match(template, placeholder(0), slot_value(ctx, 0));
    replace_without_match(template, placeholder(1), slot_value(ctx, 1));
    replace_without_match(template, placeholder(2), slot_value(ctx, 2));
    replace_without_match(template, placeholder(3), slot_value(ctx, 3));
    replace_without_match(template, placeholder(4), slot_value(ctx, 4));
    replace_without_match(template, placeholder(5), slot_value(ctx, 5));
    replace_without_match(template, placeholder(6), slot_value(ctx, 6));
    replace_without_match(template, placeholder(7), slot_value(ctx, 7));
}

/// A value that the context lacks renders like an empty one: two contexts that differ only there
/// render every template alike.
pub proof fn render_takes_missing_as_empty(template: Seq<char>, a: ContextView, b: ContextView)
    requires
        a.subject == b.subject,
        a.body == b.body,
        or_empty(a.job_name) == or_empty(b.job_name),
        or_empty(a.status) == or_empty(b.status),
        or_empty(a.execution_id) == or_empty(b.execution_id),
        or_empty(a.stdout) == or_empty(b.stdout),
        or_empty(a.stderr) == or_empty(b.stderr),
        a.timestamp == b.timestamp,
    ensures
        render(template, a) == render(template, b),
{
    reveal_with_fuel(render_first, 9);
}

/// A context shows each of its texts under its own name.
pub proof fn context_shows_its_fields(context: WebhookContext)
    ensures
        context@.subject == context.subject@,
        context@.body == context.body@,
        context@.timestamp == context.timestamp@,
        context.job_name matches Some(t) ==> context@.job_name == Some(t@),
        context.job_name is None ==> context@.job_name is None,
        context.status matches Some(t) ==> context@.status == Some(t@),
        context.status is None ==> context@.status is None,
        context.execution_id matches Some(t) ==> context@.execution_id == Some(t@),
        context.execution_id is None ==> context@.execution_id is None,
        context.stdout matches Some(t) ==> context@.stdout == Some(t@),
        context.stdout is None ==> context@.stdout is None,
        context.stderr matches Some(t) ==> context@.stderr == Some(t@),
        context.stderr is None ==> context@.stderr is None,
{
}

/// A notification that is about no execution tells its subject, its body and its time, and
/// nothing of a job.
pub proof fn plain_context_tells_no_job(
    subject: Seq<char>,
    body: Seq<char>,
    timestamp: Seq<char>,
)
    ensures
        ({
            let c = plain_context(subject, body, timestamp);
            &&& c.subject == subject
            &&& c.body == body
            &&& c.timestamp == timestamp
            &&& c.job_name is None
            &&& c.status is None
            &&& c.execution_id is None
            &&& c.stdout is None
            &&& c.stderr is None
        }),
{
}

/// No marker begins in `t`, whatever follows it: no opening brace is followed by another one or
/// stands at the end.
pub open spec fn lone_braces(t: Seq<char>) -> bool {
    &&& t.len() > 0 ==> t.last() != '{'
    &&& forall|i: int, j: int|
        0 <= i && j == i + 1 && j < t.len() && #[trigger] t[i] == '{' ==> #[trigger] t[j] != '{'
}

/// A text in which no marker begins is not touched by the replacement of a placeholder.
proof fn lone_braces_pass(start: Seq<char>, rest: Seq<char>, k: int, rep: Seq<char>)
    requires
        0 <= k < 8,
        lone_braces(start),
    ensures
        text::replace_all(start + rest, placeholder(k), rep) == start + text::replace_all(
            rest,
            placeholder(k),
            rep,
        ),
{
    placeholders_are_markers();
    let s = start + rest;
    assert(placeholder(k).len() > 0);
    assert forall|i: int| 0 <= i < start.len() implies !text::starts_with(
        #[trigger] s.skip(i),
        placeholder(k),
    ) by {
        assert(s.skip(i)[0] == start[i]);
        if start[i] == '{' {
            assert(i != start.len() - 1);
            assert(start[i + 1] != '{');
            assert(s.skip(i)[1] == start[i + 1]);
        }
        needs_brace(s.skip(i), k);
    }
    replace_passes(start, rest, placeholder(k), rep);
}

/// The first `n` replacements turn the `k`-th placeholder into its value once its turn has come,
/// and treat what follows it as if it stood alone.
proof fn placeholder_turns(
    left: Seq<char>,
    rest: Seq<char>,
    ctx: ContextView,
    k: int,
    n: nat,
)
    requires
        0 <= k < 8,
        n <= 8,
        lone_braces(left),
        lone_braces(slot_value(ctx, k)),
    ensures
        render_first(left + placeholder(k) + rest, ctx, n) == left + (if k < n {
            slot_value(ctx, k)
        } else {
            placeholder(k)
        }) + render_first(rest, ctx, n),
    decreases n,
{
    if n > 0 {
        placeholder_turns(left, rest, ctx, k, (n - 1) as nat);
        let done = render_first(rest, ctx, (n - 1) as nat);
        let pat = placeholder(n - 1);
        let rep = slot_value(ctx, n - 1);
        let own = placeholder(k);
        let value = slot_value(ctx, k);
        if k < n - 1 {
            assert(left + value + done =~= left + (value + done));
            lone_braces_pass(left, value + done, n - 1, rep);
            lone_braces_pass(value, done, n - 1, rep);
        } else {
            assert(left + own + done =~= left + (own + done));
            lone_braces_pass(left, own + done, n - 1, rep);
            if k == n - 1 {
                placeholders_are_markers();
                assert(own.len() > 0);
                assert((own + done).take(own.len() as int) =~= own);
                assert((own + done).skip(own.len() as int) =~= done);
            } else {
                replace_passes_other(k, n - 1, done, rep);
            }
        }
        let piece = if k < n {
            value
        } else {
            own
        };
        let rendered = text::replace_all(done, pat, rep);
        assert(left + (piece + rendered) =~= left + piece + rendered);
    }
}

/// Rendering puts the text of each field where the marker of that field stands, and nothing where
/// the context lacks the field; what stands in front of the marker stays, and what follows it is
/// rendered as if it stood alone. This holds of every template, whatever follows the marker, if no
/// marker begins in what stands in front of it or in the text of the field.
pub proof fn marker_gives_way_to_its_field(left: Seq<char>, rest: Seq<char>, ctx: ContextView)
    requires
        lone_braces(left),
    ensures
        lone_braces(ctx.subject) ==> render(left + "{{subject}}"@ + rest, ctx) == left
            + ctx.subject + render(rest, ctx),
        lone_braces(ctx.body) ==> render(left + "{{body}}"@ + rest, ctx) == left + ctx.body
            + render(rest, ctx),
        ctx.job_name matches Some(t) ==> (lone_braces(t) ==> render(
            left + "{{job_name}}"@ + rest,
            ctx,
        ) == left + t + render(rest, ctx)),
        ctx.job_name is None ==> render(left + "{{job_name}}"@ + rest, ctx) == left + render(
            rest,
            ctx,
        ),
        ctx.status matches Some(t) ==> (lone_braces(t) ==> render(
            left + "{{status}}"@ + rest,
            ctx,
        ) == left + t + render(rest, ctx)),
        ctx.status is None ==> render(left + "{{status}}"@ + rest, ctx) == left + render(rest, ctx),
        ctx.execution_id matches Some(t) ==> (lone_braces(t) ==> render(
            left + "{{execution_id}}"@ + rest,
            ctx,
        ) == left + t + render(rest, ctx)),
        ctx.execution_id is None ==> render(left + "{{execution_id}}"@ + rest, ctx) == left
            + render(rest, ctx),
        ctx.stdout matches Some(t) ==> (lone_braces(t) ==> render(
            left + "{{stdout}}"@ + rest,
            ctx,
        ) == left + t + render(rest, ctx)),
        ctx.stdout is None ==> render(left + "{{stdout}}"@ + rest, ctx) == left + render(rest, ctx),
        ctx.stderr matches Some(t) ==> (lone_braces(t) ==> render(
            left + "{{stderr}}"@ + rest,
            ctx,
        ) == left + t + render(rest, ctx)),
        ctx.stderr is None ==> render(left + "{{stderr}}"@ + rest, ctx) == left + render(rest, ctx),
        lone_braces(ctx.timestamp) ==> render(left + "{{timestamp}}"@ + rest, ctx) == left
            + ctx.timestamp + render(rest, ctx),
{
    assert forall|k: int| 0 <= k < 8 && lone_braces(#[trigger] slot_value(ctx, k)) implies render(
        left + placeholder(k) + rest,
        ctx,
    ) == left + slot_value(ctx, k) + render(rest, ctx) by {
        placeholder_turns(left, rest, ctx, k, 8);
    }
    assert(left + Seq::<char>::empty() =~= left);
    let empty = Seq::<char>::empty();
    assert(lone_braces(empty));
    assert(slot_value(ctx, 0) == ctx.subject && slot_value(ctx, 1) == ctx.body);
    assert(ctx.job_name matches Some(t) ==> slot_value(ctx, 2) == t);
    assert(ctx.job_name is None ==> slot_value(ctx, 2) == empty);
    assert(ctx.status matches Some(t) ==> slot_value(ctx, 3) == t);
    assert(ctx.status is None ==> slot_value(ctx, 3) == empty);
    assert(ctx.execution_id matches Some(t) ==> slot_value(ctx, 4) == t);
    assert(ctx.execution_id is None ==> slot_value(ctx, 4) == empty);
    assert(ctx.stdout matches Some(t) ==> slot_value(ctx, 5) == t);
    assert(ctx.stdout is None ==> slot_value(ctx, 5) == empty);
    assert(ctx.stderr matches Some(t) ==> slot_value(ctx, 6) == t);
    assert(ctx.stderr is None ==> slot_value(ctx, 6) == empty);
    assert(slot_value(ctx, 7) == ctx.timestamp);
}

/// A template without two opening braces in a row is rendered as it is, whatever the context.
pub proof fn text_without_markers_stays(t: Seq<char>, ctx: ContextView)
    requires
        forall|i: int, j: int|
            0 <= i && j == i + 1 && j < t.len() && #[trigger] t[i] == '{' ==> #[trigger] t[j]
                != '{',
    ensures
        render(t, ctx) == t,
{
    placeholders_are_markers();
    assert forall|k: int| 0 <= k < 8 implies !text::contains(t, #[trigger] placeholder(k)) by {
        let p = placeholder(k);
        assert forall|i: int| 0 <= i <= t.len() implies !text::starts_with(
            #[trigger] t.skip(i),
            p,
        ) by {
            if text::starts_with(t.skip(i), p) {
                assert(t.skip(i).take(p.len() as int)[0] == t[i]);
                assert(t.skip(i).take(p.len() as int)[1] == t[i + 1]);
            }
        }
    }
    render_keeps_plain_templates(t, ctx);
}

/// A template that is nothing but the marker of a field is rendered as the text of that field,
/// and as the empty text where the context lacks the field.
pub proof fn lone_marker_is_its_field(ctx: ContextView)
    ensures
        lone_braces(ctx.subject) ==> render("{{subject}}"@, ctx) == ctx.subject,
        lone_braces(ctx.body) ==> render("{{body}}"@, ctx) == ctx.body,
        ctx.job_name matches Some(t) ==> (lone_braces(t) ==> render("{{job_name}}"@, ctx) == t),
        ctx.job_name is None ==> render("{{job_name}}"@, ctx) == Seq::<char>::empty(),
        ctx.status matches Some(t) ==> (lone_braces(t) ==> render("{{status}}"@, ctx) == t),
        ctx.status is None ==> render("{{status}}"@, ctx) == Seq::<char>::empty(),
        ctx.execution_id matches Some(t) ==> (lone_braces(t) ==> render("{{execution_id}}"@, ctx)
            == t),
        ctx.execution_id is None ==> render("{{execution_id}}"@, ctx) == Seq::<char>::empty(),
        ctx.stdout matches Some(t) ==> (lone_braces(t) ==> render("{{stdout}}"@, ctx) == t),
        ctx.stdout is None ==> render("{{stdout}}"@, ctx) == Seq::<char>::empty(),
        ctx.stderr matches Some(t) ==> (lone_braces(t) ==> render("{{stderr}}"@, ctx) == t),
        ctx.stderr is None ==> render("{{stderr}}"@, ctx) == Seq::<char>::empty(),
        lone_braces(ctx.timestamp) ==> render("{{timestamp}}"@, ctx) == ctx.timestamp,
{
    let empty = Seq::<char>::empty();
    assert forall|t: Seq<char>| #[trigger] (empty + t + empty) == t by {
        assert(empty + t + empty =~= t);
    }
    marker_gives_way_to_its_field(empty, empty, ctx);
    text_without_markers_stays(empty, ctx);
    assert(empty + "{{subject}}"@ + empty == "{{subject}}"@);
    assert(empty + "{{body}}"@ + empty == "{{body}}"@);
    assert(empty + "{{job_name}}"@ + empty == "{{job_name}}"@);
    assert(empty + "{{status}}"@ + empty == "{{status}}"@);
    assert(empty + "{{execution_id}}"@ + empty == "{{execution_id}}"@);
    assert(empty + "{{stdout}}"@ + empty == "{{stdout}}"@);
    assert(empty + "{{stderr}}"@ + empty == "{{stderr}}"@);
    assert(empty + "{{timestamp}}"@ + empty == "{{timestamp}}"@);
    assert(empty + empty =~= empty);
}

/// The fields are put in one after the other: the subject, the body, the name of the job, its
/// status, the execution, the output, the errors and the time. So a marker that a field brings in
/// is replaced where the turn of its field comes later, and stays where it came before.
pub proof fn fields_take_turns(template: Seq<char>, ctx: ContextView)
    ensures
        ({
            let t = text::replace_all(template, "{{subject}}"@, ctx.subject);
            let t = text::replace_all(t, "{{body}}"@, ctx.body);
            let t = text::replace_all(
                t,
                "{{job_name}}"@,
                match ctx.job_name {
                    Some(job_name) => job_name,
                    None => seq![],
                },
            );
            let t = text::replace_all(
                t,
                "{{status}}"@,
                match ctx.status {
                    Some(status) => status,
                    None => seq![],
                },
            );
            let t = text::replace_all(
                t,
                "{{execution_id}}"@,
                match ctx.execution_id {
                    Some(execution_id) => execution_id,
                    None => seq![],
                },
            );
            let t = text::replace_all(
                t,
                "{{stdout}}"@,
                match ctx.stdout {
                    Some(stdout) => stdout,
                    None => seq![],
                },
            );
            let t = text::replace_all(
                t,
                "{{stderr}}"@,
                match ctx.stderr {
                    Some(stderr) => stderr,
                    None => seq![],
                },
            );
            render(template, ctx) == text::replace_all(t, "{{timestamp}}"@, ctx.timestamp)
        }),
{
    reveal_with_fuel(render_first, 9);
}

/// An optional text counts with its own characters, and as the empty text where there is none.
pub proof fn missing_text_is_empty(text: Option<String>)
    ensures
        text matches Some(t) ==> or_empty(optional_text(text)) == t@,
        text is None ==> or_empty(optional_text(text)) == Seq::<char>::empty(),
{
}

/// Two calls of [`render_template`] with the same context, the one for a whole template and the
/// other for what follows its first marker, differ by what stands in front of the marker and by
/// the text of the marker's field.
pub proof fn rendering_goes_on_behind_a_marker(
    ctx: WebhookContext,
    left: Seq<char>,
    whole: &str,
    rest: &str,
    rendered: String,
    rest_rendered: String,
)
    requires
        lone_braces(left),
        call_ensures(render_template, (whole, &ctx), rendered),
        call_ensures(render_template, (rest, &ctx), rest_rendered),
    ensures
        whole@ == left + "{{subject}}"@ + rest@ && lone_braces(ctx.subject@) ==> rendered@ == left
            + ctx.subject@ + rest_rendered@,
        whole@ == left + "{{body}}"@ + rest@ && lone_braces(ctx.body@) ==> rendered@ == left
            + ctx.body@ + rest_rendered@,
        whole@ == left + "{{job_name}}"@ + rest@ ==> (ctx.job_name matches Some(t) ==> (lone_braces(
            t@,
        ) ==> rendered@ == left + t@ + rest_rendered@)),
        whole@ == left + "{{job_name}}"@ + rest@ && ctx.job_name is None ==> rendered@ == left
            + rest_rendered@,
        whole@ == left + "{{status}}"@ + rest@ ==> (ctx.status matches Some(t) ==> (lone_braces(t@)
            ==> rendered@ == left + t@ + rest_rendered@)),
        whole@ == left + "{{status}}"@ + rest@ && ctx.status is None ==> rendered@ == left
            + rest_rendered@,
        whole@ == left + "{{execution_id}}"@ + rest@ ==> (ctx.execution_id matches Some(t) ==> (
        lone_braces(t@) ==> rendered@ == left + t@ + rest_rendered@)),
        whole@ == left + "{{execution_id}}"@ + rest@ && ctx.execution_id is None ==> rendered@
            == left + rest_rendered@,
        whole@ == left + "{{stdout}}"@ + rest@ ==> (ctx.stdout matches Some(t) ==> (lone_braces(t@)
            ==> rendered@ == left + t@ + rest_rendered@)),
        whole@ == left + "{{stdout}}"@ + rest@ && ctx.stdout is None ==> rendered@ == left
            + rest_rendered@,
        whole@ == left + "{{stderr}}"@ + rest@ ==> (ctx.stderr matches Some(t) ==> (lone_braces(t@)
            ==> rendered@ == left + t@ + rest_rendered@)),
        whole@ == left + "{{stderr}}"@ + rest@ && ctx.stderr is None ==> rendered@ == left
            + rest_rendered@,
        whole@ == left + "{{timestamp}}"@ + rest@ && lone_braces(ctx.timestamp@) ==> rendered@
            == left + ctx.timestamp@ + rest_rendered@,
{
    marker_gives_way_to_its_field(left, rest@, ctx@);
}

}
