//! The quest and reward editor: HTML escaping, the table fragments that the
//! editor patches into its page, and the checks on submitted forms.

use crate::errors::AppError;
use crate::models::{FileUpload, Quest, QuestJsonRequest, Reward, RewardJsonRequest};
use crate::text::{int_text, push_int, push_str, trim};
use crate::upload::{decode_base64, MAX_IMAGE_CONTENT_LEN};
use vstd::prelude::*;

verus! {

/// The HTML text that stands for one character: the five characters that
/// markup gives a meaning become entities, every other character stays.
pub open spec fn html_escape_char(c: char) -> Seq<char> {
    if c == '&' {
        "&amp;"@
    } else if c == '<' {
        "&lt;"@
    } else if c == '>' {
        "&gt;"@
    } else if c == '"' {
        "&quot;"@
    } else if c == '\'' {
        "&#39;"@
    } else {
        seq![c]
    }
}

/// `s` with each character escaped for HTML.
pub open spec fn escaped_html(s: Seq<char>) -> Seq<char>
    decreases s.len(),
{
    if s.len() == 0 {
        Seq::empty()
    } else {
        escaped_html(s.drop_last()) + html_escape_char(s.last())
    }
}

/// A character that may start markup or end an attribute value.
pub open spec fn is_markup_char(c: char) -> bool {
    c == '<' || c == '>' || c == '"' || c == '\''
}

fn push_escaped_char(html: &mut String, c: char)
    ensures
        final(html)@ == old(html)@ + html_escape_char(c),
{
    if c == '&' {
        push_str(html, "&amp;");
    } else if c == '<' {
        push_str(html, "&lt;");
    } else if c == '>' {
        push_str(html, "&gt;");
    } else if c == '"' {
        push_str(html, "&quot;");
    } else if c == '\'' {
        push_str(html, "&#39;");
    } else {
        crate::text::push_char(html, c);
        assert(old(html)@.push(c) =~= old(html)@ + seq![c]);
    }
}

/// Escapes `&`, `<`, `>`, `"` and `'` for use in HTML text and attributes.
pub fn escape_html(s: &str) -> (r: String)
    ensures
        r@ == escaped_html(s@),
{
    let chars = crate::text::chars_of(s);
    let mut r = String::new();
    let mut i: usize = 0;
    while i < chars.len()
        invariant
            i <= chars.len(),
            chars@ == s@,
            r@ == escaped_html(chars@.take(i as int)),
        decreases chars.len() - i,
    {
        push_escaped_char(&mut r, chars[i]);
        assert(chars@.take(i as int + 1).drop_last() =~= chars@.take(i as int));
        i += 1;
    }
    assert(chars@.take(chars.len() as int) =~= chars@);
    r
}

/// Escaped text holds none of the characters that could start markup or
/// leave an attribute value: `<`, `>`, `"` and `'`.
pub proof fn lemma_escaped_html_has_no_markup(s: Seq<char>)
    ensures
        forall|i: int| 0 <= i < escaped_html(s).len() ==> !is_markup_char(#[trigger] escaped_html(s)[i]),
    decreases s.len(),
{
    if s.len() > 0 {
        lemma_escaped_html_has_no_markup(s.drop_last());
        let a = escaped_html(s.drop_last());
        let b = html_escape_char(s.last());
        reveal_strlit("&amp;");
        reveal_strlit("&lt;");
        reveal_strlit("&gt;");
        reveal_strlit("&quot;");
        reveal_strlit("&#39;");
        assert forall|i: int| 0 <= i < escaped_html(s).len() implies !is_markup_char(
            #[trigger] escaped_html(s)[i],
        ) by {
            if i >= a.len() {
                assert(escaped_html(s)[i] == b[i - a.len()]);
            } else {
                assert(escaped_html(s)[i] == a[i]);
            }
        }
    }
}

/// Names of the days of the week, indexed from Sunday = 0.
pub open spec fn day_name_text(day_of_week: int) -> Seq<char> {
    if day_of_week == 0 {
        "Sunday"@
    } else if day_of_week == 1 {
        "Monday"@
    } else if day_of_week == 2 {
        "Tuesday"@
    } else if day_of_week == 3 {
        "Wednesday"@
    } else if day_of_week == 4 {
        "Thursday"@
    } else if day_of_week == 5 {
        "Friday"@
    } else if day_of_week == 6 {
        "Saturday"@
    } else {
        "Unknown"@
    }
}

/// The name of a day of the week (0 = Sunday), or `Unknown` outside 0..=6.
pub fn day_name(day_of_week: i32) -> (name: &'static str)
    ensures
        name@ == day_name_text(day_of_week as int),
{
    if day_of_week == 0 {
        "Sunday"
    } else if day_of_week == 1 {
        "Monday"
    } else if day_of_week == 2 {
        "Tuesday"
    } else if day_of_week == 3 {
        "Wednesday"
    } else if day_of_week == 4 {
        "Thursday"
    } else if day_of_week == 5 {
        "Friday"
    } else if day_of_week == 6 {
        "Saturday"
    } else {
        "Unknown"
    }
}

/// The badge that shows whether a quest or reward is active.
pub open spec fn status_badge(is_active: bool) -> Seq<char> {
    if is_active {
        "<span class=\"status-badge status-badge--active\">Active</span>"@
    } else {
        "<span class=\"status-badge status-badge--inactive\">Inactive</span>"@
    }
}

/// The class of a table row: inactive rows are greyed out.
pub open spec fn row_class(is_active: bool) -> Seq<char> {
    if is_active {
        ""@
    } else {
        "inactive-row"@
    }
}

/// One row of the quest table.
pub open spec fn quest_row_html(q: Quest) -> Seq<char> {
    "<tr id=\"quest-row-"@ + int_text(q.id as int) + "\" class=\""@ + row_class(q.is_active)
        + "\" style=\"view-transition-name: editor-row;\"><td>"@ + escaped_html(q.title@)
        + "</td><td>"@ + int_text(q.exp_value as int) + "</td><td>"@ + day_name_text(
        q.day_of_week as int,
    ) + "</td><td>"@ + status_badge(q.is_active)
        + "</td><td><div class=\"action-buttons\"><button class=\"editor-btn editor-btn--small\" data-on:click=\"@get('/editor/quests/"@
        + int_text(q.id as int)
        + "/edit')\">Edit</button><button class=\"editor-btn editor-btn--danger\" data-on:click=\"@delete('/editor/quests/"@
        + int_text(q.id as int) + "')\">Delete</button></div></td></tr>"@
}

/// The rows of the quest table, in the order of the quests.
pub open spec fn quest_rows_html(quests: Seq<Quest>) -> Seq<char>
    decreases quests.len(),
{
    if quests.len() == 0 {
        Seq::empty()
    } else {
        quest_rows_html(quests.drop_last()) + quest_row_html(quests.last())
    }
}

/// Head of the quest table.
pub open spec fn quests_table_head() -> Seq<char> {
    "<table class=\"editor-table\"><thead><tr><th>Title</th><th>EXP</th><th>Day</th><th>Status</th><th>Actions</th></tr></thead><tbody>"@
}

/// The row shown in place of quests when there are none.
pub open spec fn no_quests_row() -> Seq<char> {
    "<tr><td colspan=\"5\" class=\"empty-message\">No quests yet. Add your first quest!</td></tr>"@
}

/// The whole quest table.
pub open spec fn quests_table_html(quests: Seq<Quest>) -> Seq<char> {
    quests_table_head() + quest_rows_html(quests) + (if quests.len() == 0 {
        no_quests_row()
    } else {
        Seq::empty()
    }) + "</tbody></table>"@
}

#[verifier::rlimit(40)]
#[verifier::spinoff_prover]
fn push_quest_row(html: &mut String, q: &Quest)
    ensures
        final(html)@ == old(html)@ + quest_row_html(*q),
{
    push_str(html, "<tr id=\"quest-row-");
    push_int(html, q.id);
    push_str(html, "\" class=\"");
    if q.is_active {
        push_str(html, "");
    } else {
        push_str(html, "inactive-row");
    }
    push_str(html, "\" style=\"view-transition-name: editor-row;\"><td>");
    let title = escape_html(q.title.as_str());
    push_str(html, title.as_str());
    push_str(html, "</td><td>");
    push_int(html, q.exp_value as i64);
    push_str(html, "</td><td>");
    push_str(html, day_name(q.day_of_week));
    push_str(html, "</td><td>");
    if q.is_active {
        push_str(html, "<span class=\"status-badge status-badge--active\">Active</span>");
    } else {
        push_str(html, "<span class=\"status-badge status-badge--inactive\">Inactive</span>");
    }
    push_str(
        html,
        "</td><td><div class=\"action-buttons\"><button class=\"editor-btn editor-btn--small\" data-on:click=\"@get('/editor/quests/",
    );
    push_int(html, q.id);
    push_str(
        html,
        "/edit')\">Edit</button><button class=\"editor-btn editor-btn--danger\" data-on:click=\"@delete('/editor/quests/",
    );
    push_int(html, q.id);
    push_str(html, "')\">Delete</button></div></td></tr>");
    assert(html@ =~= old(html)@ + quest_row_html(*q));
}

/// The quest table of the editor: one row per quest with its escaped title,
/// EXP, day, status and edit and delete buttons, or a hint when there are no
/// quests.
pub fn render_quests_table(quests: &[Quest]) -> (html: String)
    ensures
        html@ == quests_table_html(quests@),
{
    let mut html = String::new();
    push_str(
        &mut html,
        "<table class=\"editor-table\"><thead><tr><th>Title</th><th>EXP</th><th>Day</th><th>Status</th><th>Actions</th></tr></thead><tbody>",
    );
    let mut i: usize = 0;
    while i < quests.len()
        invariant
            i <= quests.len(),
            html@ == quests_table_head() + quest_rows_html(quests@.take(i as int)),
        decreases quests.len() - i,
    {
        push_quest_row(&mut html, &quests[i]);
        assert(quests@.take(i as int + 1).drop_last() =~= quests@.take(i as int));
        i += 1;
    }
    assert(quests@.take(quests.len() as int) =~= quests@);
    if quests.len() == 0 {
        push_str(
            &mut html,
            "<tr><td colspan=\"5\" class=\"empty-message\">No quests yet. Add your first quest!</td></tr>",
        );
    }
    push_str(&mut html, "</tbody></table>");
    assert(html@ =~= quests_table_html(quests@));
    html
}

/// One row of the reward table.
pub open spec fn reward_row_html(r: Reward) -> Seq<char> {
    "<tr id=\"reward-row-"@ + int_text(r.id as int) + "\" class=\""@ + row_class(r.is_active)
        + "\" style=\"view-transition-name: editor-row;\"><td>"@ + escaped_html(r.title@)
        + "</td><td>"@ + int_text(r.required_exp as int) + "</td><td>"@ + status_badge(
        r.is_active,
    )
        + "</td><td><div class=\"action-buttons\"><button class=\"editor-btn editor-btn--small\" data-on:click=\"@get('/editor/rewards/"@
        + int_text(r.id as int)
        + "/edit')\">Edit</button><button class=\"editor-btn editor-btn--danger\" data-on:click=\"@delete('/editor/rewards/"@
        + int_text(r.id as int) + "')\">Delete</button></div></td></tr>"@
}

/// The rows of the reward table, in the order of the rewards.
pub open spec fn reward_rows_html(rewards: Seq<Reward>) -> Seq<char>
    decreases rewards.len(),
{
    if rewards.len() == 0 {
        Seq::empty()
    } else {
        reward_rows_html(rewards.drop_last()) + reward_row_html(rewards.last())
    }
}

/// Head of the reward table.
pub open spec fn rewards_table_head() -> Seq<char> {
    "<table class=\"editor-table\"><thead><tr><th>Title</th><th>Required EXP</th><th>Status</th><th>Actions</th></tr></thead><tbody>"@
}

/// The row shown in place of rewards when there are none.
pub open spec fn no_rewards_row() -> Seq<char> {
    "<tr><td colspan=\"4\" class=\"empty-message\">No rewards yet. Add your first reward!</td></tr>"@
}

/// The whole reward table.
pub open spec fn rewards_table_html(rewards: Seq<Reward>) -> Seq<char> {
    rewards_table_head() + reward_rows_html(rewards) + (if rewards.len() == 0 {
        no_rewards_row()
    } else {
        Seq::empty()
    }) + "</tbody></table>"@
}

#[verifier::rlimit(40)]
#[verifier::spinoff_prover]
fn push_reward_row(html: &mut String, r: &Reward)
    ensures
        final(html)@ == old(html)@ + reward_row_html(*r),
{
    push_str(html, "<tr id=\"reward-row-");
    push_int(html, r.id);
    push_str(html, "\" class=\"");
    if r.is_active {
        push_str(html, "");
    } else {
        push_str(html, "inactive-row");
    }
    push_str(html, "\" style=\"view-transition-name: editor-row;\"><td>");
    let title = escape_html(r.title.as_str());
    push_str(html, title.as_str());
    push_str(html, "</td><td>");
    push_int(html, r.required_exp as i64);
    push_str(html, "</td><td>");
    if r.is_active {
        push_str(html, "<span class=\"status-badge status-badge--active\">Active</span>");
    } else {
        push_str(html, "<span class=\"status-badge status-badge--inactive\">Inactive</span>");
    }
    push_str(
        html,
        "</td><td><div class=\"action-buttons\"><button class=\"editor-btn editor-btn--small\" data-on:click=\"@get('/editor/rewards/",
    );
    push_int(html, r.id);
    push_str(
        html,
        "/edit')\">Edit</button><button class=\"editor-btn editor-btn--danger\" data-on:click=\"@delete('/editor/rewards/",
    );
    push_int(html, r.id);
    push_str(html, "')\">Delete</button></div></td></tr>");
    assert(html@ =~= old(html)@ + reward_row_html(*r));
}

/// The reward table of the editor: one row per reward with its escaped
/// title, required EXP, status and edit and delete buttons, or a hint when
/// there are no rewards.
pub fn render_rewards_table(rewards: &[Reward]) -> (html: String)
    ensures
        html@ == rewards_table_html(rewards@),
{
    let mut html = String::new();
    push_str(
        &mut html,
        "<table class=\"editor-table\"><thead><tr><th>Title</th><th>Required EXP</th><th>Status</th><th>Actions</th></tr></thead><tbody>",
    );
    let mut i: usize = 0;
    while i < rewards.len()
        invariant
            i <= rewards.len(),
            html@ == rewards_table_head() + reward_rows_html(rewards@.take(i as int)),
        decreases rewards.len() - i,
    {
        push_reward_row(&mut html, &rewards[i]);
        assert(rewards@.take(i as int + 1).drop_last() =~= rewards@.take(i as int));
        i += 1;
    }
    assert(rewards@.take(rewards.len() as int) =~= rewards@);
    if rewards.len() == 0 {
        push_str(
            &mut html,
            "<tr><td colspan=\"4\" class=\"empty-message\">No rewards yet. Add your first reward!</td></tr>",
        );
    }
    push_str(&mut html, "</tbody></table>");
    assert(html@ =~= rewards_table_html(rewards@));
    html
}

// ---------------------------------------------------------------------------
// Submitted forms

/// The base64 text of an uploaded file, as bytes.
pub open spec fn upload_text(f: FileUpload) -> Seq<u8> {
    vstd::utf8::encode_utf8(f.contents@)
}

/// The first chosen file is larger than the editor accepts.
pub open spec fn first_upload_too_large(files: Seq<FileUpload>) -> bool {
    files.len() > 0 && (upload_text(files[0]).len() as usize) > MAX_IMAGE_CONTENT_LEN
}

/// The decoded contents and MIME type of the first chosen file, where there
/// is one and its contents are valid base64.
pub open spec fn first_upload_decoded(files: Seq<FileUpload>) -> Option<(Seq<u8>, Seq<char>)> {
    if files.len() == 0 {
        None
    } else {
        match decode_base64(upload_text(files[0])) {
            Some(data) => Some((data, files[0].mime@)),
            None => None,
        }
    }
}

/// The view of optional bytes.
pub open spec fn opt_bytes(o: Option<Vec<u8>>) -> Option<Seq<u8>> {
    match o {
        Some(v) => Some(v@),
        None => None,
    }
}

/// The view of an optional string.
pub open spec fn opt_text(o: Option<String>) -> Option<Seq<char>> {
    match o {
        Some(s) => Some(s@),
        None => None,
    }
}

/// The decoded image of a form, split into data and content type.
pub open spec fn image_parts(
    d: Option<(Seq<u8>, Seq<char>)>,
) -> (Option<Seq<u8>>, Option<Seq<char>>) {
    match d {
        Some((data, mime)) => (Some(data), Some(mime)),
        None => (None, None),
    }
}

/// The message of the first check that a quest form fails, if any: a title
/// that is empty once trimmed, a day outside 0..=6, a negative EXP value, or
/// a first image that is too large.
pub open spec fn quest_form_error(req: QuestJsonRequest) -> Option<Seq<char>> {
    if trim(req.quest_title@).len() == 0 {
        Some("Title is required"@)
    } else if !(0 <= req.quest_day_of_week <= 6) {
        Some("Day must be 0-6"@)
    } else if (req.quest_exp_value matches Some(e) && e < 0) {
        Some("EXP must be non-negative"@)
    } else if first_upload_too_large(req.quest_image@) {
        Some("Image file is too large (max 5MB)"@)
    } else {
        None
    }
}

/// The message of the first check that a reward form fails, if any: a title
/// that is empty once trimmed, or a first image that is too large.
pub open spec fn reward_form_error(req: RewardJsonRequest) -> Option<Seq<char>> {
    if trim(req.reward_title@).len() == 0 {
        Some("Title is required"@)
    } else if first_upload_too_large(req.reward_image@) {
        Some("Image file is too large (max 5MB)"@)
    } else {
        None
    }
}

/// A checked quest form, ready to be stored.
#[derive(Debug)]
pub struct QuestData {
    /// The trimmed title.
    pub title: String,
    /// The description, as submitted.
    pub description: Option<String>,
    /// The EXP value, as submitted.
    pub exp_value: Option<i32>,
    /// The day of the week (0 = Sunday).
    pub day_of_week: i32,
    /// The decoded image, if one was chosen and decodes.
    pub image_data: Option<Vec<u8>>,
    /// The MIME type of the image, alongside `image_data`.
    pub image_content_type: Option<String>,
}

/// A checked reward form, ready to be stored.
#[derive(Debug)]
pub struct RewardData {
    /// The trimmed title.
    pub title: String,
    /// The description, as submitted.
    pub description: Option<String>,
    /// The EXP needed to claim the reward.
    pub required_exp: i32,
    /// The decoded image, if one was chosen and decodes.
    pub image_data: Option<Vec<u8>>,
    /// The MIME type of the image, alongside `image_data`.
    pub image_content_type: Option<String>,
}

fn trimmed(s: &String) -> (t: String)
    ensures
        t@ == trim(s@),
{
    let cs = crate::text::chars_of(s.as_str());
    let ts = crate::text::trim_chars(&cs);
    crate::text::string_of_chars(&ts)
}

fn first_too_large(files: &Vec<FileUpload>) -> (b: bool)
    ensures
        b == first_upload_too_large(files@),
{
    files.len() > 0 && files[0].is_too_large()
}

fn decode_first(files: &Vec<FileUpload>) -> (r: (Option<Vec<u8>>, Option<String>))
    ensures
        (opt_bytes(r.0), opt_text(r.1)) == image_parts(first_upload_decoded(files@)),
{
    if files.len() == 0 {
        return (None, None);
    }
    match files[0].decode() {
        Some((data, mime)) => (Some(data), Some(mime)),
        None => (None, None),
    }
}

/// Checks a submitted quest form: the first failing check gives a
/// validation error with its message; otherwise the trimmed title, the
/// fields as submitted and the decoded first image (where it decodes).
pub fn extract_quest_from_request(req: QuestJsonRequest) -> (r: Result<QuestData, AppError>)
    ensures
        match r {
            Err(e) => (e matches AppError::ValidationError(msg) && quest_form_error(req) == Some(
                msg@,
            )),
            Ok(d) => {
                &&& quest_form_error(req) is None
                &&& d.title@ == trim(req.quest_title@)
                &&& d.description == req.quest_description
                &&& d.exp_value == req.quest_exp_value
                &&& d.day_of_week == req.quest_day_of_week
                &&& (opt_bytes(d.image_data), opt_text(d.image_content_type)) == image_parts(
                    first_upload_decoded(req.quest_image@),
                )
            },
        },
{
    let title = trimmed(&req.quest_title);
    if title.as_str().is_empty() {
        return Err(crate::errors::validation_error("Title is required"));
    }
    if !(0 <= req.quest_day_of_week && req.quest_day_of_week <= 6) {
        return Err(crate::errors::validation_error("Day must be 0-6"));
    }
    let negative = match req.quest_exp_value {
        Some(e) => e < 0,
        None => false,
    };
    if negative {
        return Err(crate::errors::validation_error("EXP must be non-negative"));
    }
    if first_too_large(&req.quest_image) {
        return Err(crate::errors::validation_error("Image file is too large (max 5MB)"));
    }
    let (image_data, image_content_type) = decode_first(&req.quest_image);
    Ok(
        QuestData {
            title,
            description: req.quest_description,
            exp_value: req.quest_exp_value,
            day_of_week: req.quest_day_of_week,
            image_data,
            image_content_type,
        },
    )
}

/// Checks a submitted reward form: the first failing check gives a
/// validation error with its message; otherwise the trimmed title, the
/// fields as submitted and the decoded first image (where it decodes).
pub fn extract_reward_from_request(req: RewardJsonRequest) -> (r: Result<RewardData, AppError>)
    ensures
        match r {
            Err(e) => (e matches AppError::ValidationError(msg) && reward_form_error(req) == Some(
                msg@,
            )),
            Ok(d) => {
                &&& reward_form_error(req) is None
                &&& d.title@ == trim(req.reward_title@)
                &&& d.description == req.reward_description
                &&& d.required_exp == req.reward_required_exp
                &&& (opt_bytes(d.image_data), opt_text(d.image_content_type)) == image_parts(
                    first_upload_decoded(req.reward_image@),
                )
            },
        },
{
    let title = trimmed(&req.reward_title);
    if title.as_str().is_empty() {
        return Err(crate::errors::validation_error("Title is required"));
    }
    if first_too_large(&req.reward_image) {
        return Err(crate::errors::validation_error("Image file is too large (max 5MB)"));
    }
    let (image_data, image_content_type) = decode_first(&req.reward_image);
    Ok(
        RewardData {
            title,
            description: req.reward_description,
            required_exp: req.reward_required_exp,
            image_data,
            image_content_type,
        },
    )
}

} // verus!
