use quest_log::dates::UtcTimestamp;
use quest_log::editor::{
    day_name, escape_html, extract_quest_from_request, extract_reward_from_request,
    render_quests_table, render_rewards_table,
};
use quest_log::errors::AppError;
use quest_log::models::{FileUpload, Quest, QuestJsonRequest, Reward, RewardJsonRequest};
use quest_log::upload::decode_base64_bytes;

fn at() -> UtcTimestamp {
    UtcTimestamp { secs: 0, nanos: 0 }
}

fn quest(id: i64, title: &str, exp: i32, day: i32, active: bool) -> Quest {
    Quest {
        created_at: at(),
        day_of_week: day,
        description: None,
        exp_value: exp,
        id,
        image_content_type: None,
        image_data: None,
        is_active: active,
        title: title.to_string(),
        updated_at: at(),
    }
}

fn quest_form(title: &str, day: i32, exp: Option<i32>, image: Vec<FileUpload>) -> QuestJsonRequest {
    QuestJsonRequest {
        quest_title: title.to_string(),
        quest_description: Some("desc".to_string()),
        quest_exp_value: exp,
        quest_day_of_week: day,
        quest_image: image,
    }
}

fn upload(contents: &str) -> FileUpload {
    FileUpload { name: "a.png".to_string(), mime: "image/png".to_string(), contents: contents.to_string() }
}

fn validation(r: Result<impl std::fmt::Debug, AppError>) -> String {
    match r {
        Err(AppError::ValidationError(m)) => m,
        other => panic!("unexpected {other:?}"),
    }
}

#[test]
fn escaping_covers_markup_characters() {
    assert_eq!(
        escape_html("<a href=\"x\">Tom & Jerry's</a>"),
        "&lt;a href=&quot;x&quot;&gt;Tom &amp; Jerry&#39;s&lt;/a&gt;"
    );
    assert_eq!(escape_html("plain"), "plain");
    assert_eq!(escape_html(""), "");
}

#[test]
fn day_names_from_sunday() {
    assert_eq!(day_name(0), "Sunday");
    assert_eq!(day_name(6), "Saturday");
    assert_eq!(day_name(7), "Unknown");
    assert_eq!(day_name(-1), "Unknown");
}

#[test]
fn quest_table_rows() {
    let html = render_quests_table(&[quest(3, "<b>Run</b>", 15, 1, true), quest(4, "Read", 5, 9, false)]);
    assert!(html.starts_with("<table class=\"editor-table\"><thead><tr><th>Title</th><th>EXP</th><th>Day</th>"));
    assert!(html.contains(
        "<tr id=\"quest-row-3\" class=\"\" style=\"view-transition-name: editor-row;\"><td>&lt;b&gt;Run&lt;/b&gt;</td><td>15</td><td>Monday</td><td><span class=\"status-badge status-badge--active\">Active</span></td>"
    ));
    assert!(html.contains("<tr id=\"quest-row-4\" class=\"inactive-row\""));
    assert!(html.contains("<td>Unknown</td>"));
    assert!(html.contains("data-on:click=\"@get('/editor/quests/4/edit')\">Edit</button>"));
    assert!(html.contains("data-on:click=\"@delete('/editor/quests/4')\">Delete</button>"));
    assert!(!html.contains("No quests yet"));
    assert!(html.ends_with("</tbody></table>"));
}

#[test]
fn empty_tables_show_a_hint() {
    let html = render_quests_table(&[]);
    assert_eq!(
        html,
        "<table class=\"editor-table\"><thead><tr><th>Title</th><th>EXP</th><th>Day</th><th>Status</th><th>Actions</th></tr></thead><tbody><tr><td colspan=\"5\" class=\"empty-message\">No quests yet. Add your first quest!</td></tr></tbody></table>"
    );
    let html = render_rewards_table(&[]);
    assert!(html.contains("No rewards yet. Add your first reward!"));
}

#[test]
fn reward_table_rows() {
    let reward = Reward {
        created_at: at(),
        description: None,
        id: 8,
        image_content_type: None,
        image_data: None,
        is_active: false,
        required_exp: 120,
        title: "Cake".to_string(),
        updated_at: at(),
    };
    let html = render_rewards_table(&[reward]);
    assert!(html.contains(
        "<tr id=\"reward-row-8\" class=\"inactive-row\" style=\"view-transition-name: editor-row;\"><td>Cake</td><td>120</td><td><span class=\"status-badge status-badge--inactive\">Inactive</span></td>"
    ));
    assert!(html.contains("@delete('/editor/rewards/8')"));
}

#[test]
fn quest_form_checks_in_order() {
    assert_eq!(validation(extract_quest_from_request(quest_form("   ", 9, Some(-1), vec![]))), "Title is required");
    assert_eq!(validation(extract_quest_from_request(quest_form("Run", 7, Some(-1), vec![]))), "Day must be 0-6");
    assert_eq!(validation(extract_quest_from_request(quest_form("Run", 0, Some(-1), vec![]))), "EXP must be non-negative");
    let big = upload(&"A".repeat(7_000_001));
    assert_eq!(
        validation(extract_quest_from_request(quest_form("Run", 0, None, vec![big]))),
        "Image file is too large (max 5MB)"
    );
}

#[test]
fn quest_form_is_trimmed_and_decoded() {
    let data = extract_quest_from_request(quest_form("  Run  ", 6, Some(0), vec![upload("aGk=")])).unwrap();
    assert_eq!(data.title, "Run");
    assert_eq!(data.description.as_deref(), Some("desc"));
    assert_eq!(data.exp_value, Some(0));
    assert_eq!(data.day_of_week, 6);
    assert_eq!(data.image_data.as_deref(), Some(&b"hi"[..]));
    assert_eq!(data.image_content_type.as_deref(), Some("image/png"));
    let undecodable = extract_quest_from_request(quest_form("Run", 1, None, vec![upload("a=b")])).unwrap();
    assert_eq!(undecodable.image_data, None);
    assert_eq!(undecodable.image_content_type, None);
}

#[test]
fn reward_form_checks() {
    let form = |title: &str, image: Vec<FileUpload>| RewardJsonRequest {
        reward_title: title.to_string(),
        reward_description: None,
        reward_required_exp: -5,
        reward_image: image,
    };
    assert_eq!(validation(extract_reward_from_request(form("", vec![]))), "Title is required");
    let data = extract_reward_from_request(form(" Cake", vec![upload("Zm9vYmFy")])).unwrap();
    assert_eq!(data.title, "Cake");
    assert_eq!(data.required_exp, -5);
    assert_eq!(data.image_data.as_deref(), Some(&b"foobar"[..]));
}

#[test]
fn base64_decoding_is_strict() {
    assert_eq!(decode_base64_bytes(b""), Some(vec![]));
    assert_eq!(decode_base64_bytes(b"Zg=="), Some(b"f".to_vec()));
    assert_eq!(decode_base64_bytes(b"Zm8="), Some(b"fo".to_vec()));
    assert_eq!(decode_base64_bytes(b"Zm9v"), Some(b"foo".to_vec()));
    assert_eq!(decode_base64_bytes(b"+/+/"), Some(vec![0xfb, 0xff, 0xbf]));
    assert_eq!(decode_base64_bytes(b"Zm9"), None);
    assert_eq!(decode_base64_bytes(b"Zh=="), None);
    assert_eq!(decode_base64_bytes(b"Zg==Zg=="), None);
    assert_eq!(decode_base64_bytes(b"Zm9v!A=="), None);
}

#[test]
fn uploads_know_their_size_and_name() {
    let f = upload("Zm9v");
    assert_eq!(f.filename(), "a.png");
    assert!(!f.is_too_large());
    assert_eq!(f.decode(), Some((b"foo".to_vec(), "image/png".to_string())));
}
