use slack_notifier::alert::{picture_url, AlertType, PICTURE_COUNT};
use slack_notifier::build_info::{formatted_build_info_from_params, BuildMetadata};
use slack_notifier::channel::{find_channel, Source};
use slack_notifier::message::{Message, Mode, NotificationPayload, OutParams};
use slack_notifier::text::{resolve_text, MessageError};

const ALL_ALERTS: [AlertType; 8] = [
    AlertType::Success,
    AlertType::Failed,
    AlertType::Started,
    AlertType::Aborted,
    AlertType::Fixed,
    AlertType::Broke,
    AlertType::Errored,
    AlertType::Custom,
];

fn params(alert_type: AlertType, mode: Mode) -> OutParams {
    OutParams {
        alert_type,
        color: None,
        message: None,
        message_file: None,
        fail_if_message_file_missing: false,
        message_as_code: false,
        mode,
        channel: None,
    }
}

fn no_metadata() -> BuildMetadata {
    BuildMetadata {
        name: None,
        job_name: None,
        pipeline_name: None,
        team_name: String::new(),
        atc_external_url: String::new(),
    }
}

fn full_metadata() -> BuildMetadata {
    BuildMetadata {
        name: Some("42".to_string()),
        job_name: Some("j".to_string()),
        pipeline_name: Some("p".to_string()),
        team_name: "t".to_string(),
        atc_external_url: "https://ci.example".to_string(),
    }
}

fn channels() -> Source {
    Source {
        integration: "#int".to_string(),
        production: "#prod".to_string(),
        staging: "#stage".to_string(),
        hotfix: "#hot".to_string(),
    }
}

fn pool() -> Vec<String> {
    (0..PICTURE_COUNT).map(|i| picture_url(i).to_string()).collect()
}

fn payload(p: &OutParams, meta: BuildMetadata, file_contents: Option<String>) -> NotificationPayload {
    Message::with_picture(p, file_contents, 0)
        .unwrap()
        .into_slack_message(meta, p, &channels())
}

#[test]
fn every_alert_has_a_theme_and_a_pool_picture() {
    let pool = pool();
    for a in ALL_ALERTS {
        let m = Message::new(&params(a, Mode::Normal), None).unwrap();
        assert!(!m.color.is_empty());
        assert!(!m.icon_url.is_empty());
        assert!(pool.contains(&m.image_url));
    }
}

#[test]
fn a_fixed_picture_index_is_reproducible() {
    for i in 0..PICTURE_COUNT {
        let p = params(AlertType::Started, Mode::Normal);
        let a = Message::with_picture(&p, None, i).unwrap();
        let b = Message::with_picture(&p, None, i).unwrap();
        assert_eq!(a.image_url, b.image_url);
        assert_eq!(a.image_url, picture_url(i));
    }
}

#[test]
fn shared_and_distinct_themes() {
    let theme = |a: AlertType| (a.color().to_string(), a.icon_url().to_string());
    assert_eq!(theme(AlertType::Success), theme(AlertType::Fixed));
    assert_eq!(theme(AlertType::Failed), theme(AlertType::Broke));
    assert_eq!(AlertType::Success.color(), "#11c560");
    assert_eq!(AlertType::Failed.color(), "#ed4b35");
    let distinct = [
        AlertType::Success,
        AlertType::Failed,
        AlertType::Started,
        AlertType::Aborted,
        AlertType::Errored,
        AlertType::Custom,
    ];
    for (i, a) in distinct.iter().enumerate() {
        for b in distinct.iter().skip(i + 1) {
            assert_ne!(a.color(), b.color());
            assert_ne!(a.icon_url(), b.icon_url());
        }
    }
}

#[test]
fn configured_color_replaces_theme_color() {
    let mut p = params(AlertType::Success, Mode::Normal);
    p.color = Some("#000000".to_string());
    let m = Message::with_picture(&p, None, 1).unwrap();
    assert_eq!(m.color, "#000000");
    assert_eq!(m.icon_url, AlertType::Success.icon_url());
}

#[test]
fn missing_metadata_gives_unknown_build() {
    for missing in 0..3 {
        let mut m = full_metadata();
        match missing {
            0 => m.pipeline_name = None,
            1 => m.job_name = None,
            _ => m.name = None,
        }
        let info = formatted_build_info_from_params(&m);
        assert_eq!(info.job_name, "unknown job");
        assert_eq!(info.build_name, "unknown build");
        assert_eq!(info.build_number, "unknown build");
        assert_eq!(info.build_url, None);
    }
}

#[test]
fn full_metadata_gives_build_identifiers() {
    let info = formatted_build_info_from_params(&full_metadata());
    assert_eq!(info.job_name, "p/j");
    assert_eq!(info.build_name, "p/j #42");
    assert_eq!(info.build_number, "#42");
    assert_eq!(
        info.build_url.as_deref(),
        Some("https://ci.example/teams/t/pipelines/p/jobs/j/builds/42")
    );
}

#[test]
fn build_url_percent_encodes_names() {
    let mut m = full_metadata();
    m.team_name = "main team".to_string();
    m.pipeline_name = Some("my pipe".to_string());
    m.job_name = Some("a/b".to_string());
    let info = formatted_build_info_from_params(&m);
    let url = info.build_url.unwrap();
    assert_eq!(
        url,
        "https://ci.example/teams/main%20team/pipelines/my%20pipe/jobs/a%2Fb/builds/42"
    );
    assert!(url.contains("/pipelines/my%20pipe/jobs/a%2Fb/"));
    assert_eq!(info.job_name, "my pipe/a/b");
}

#[test]
fn unreadable_file_falls_back_to_inline_text() {
    let r = resolve_text(
        &Some("missing.txt".to_string()),
        &Some("fallback".to_string()),
        true,
        None,
        false,
    );
    assert_eq!(r, Ok(Some("fallback".to_string())));
}

#[test]
fn readable_file_wins_over_inline_text() {
    let r = resolve_text(
        &Some("msg.txt".to_string()),
        &Some("fallback".to_string()),
        false,
        Some("from file".to_string()),
        false,
    );
    assert_eq!(r, Ok(Some("from file".to_string())));
}

#[test]
fn required_missing_file_is_fatal() {
    let r = resolve_text(&Some("missing.txt".to_string()), &None, true, None, false);
    assert_eq!(r, Err(MessageError::RequiredFileMissing));
    let mut p = params(AlertType::Success, Mode::Normal);
    p.message_file = Some("missing.txt".to_string());
    p.fail_if_message_file_missing = true;
    assert!(matches!(
        Message::new(&p, None),
        Err(MessageError::RequiredFileMissing)
    ));
}

#[test]
fn optional_missing_file_names_the_file() {
    let r = resolve_text(&Some("missing.txt".to_string()), &None, false, None, false);
    assert_eq!(r, Ok(Some("error reading file missing.txt".to_string())));
    let r = resolve_text(&Some("missing.txt".to_string()), &None, false, None, true);
    assert_eq!(r, Ok(Some("```error reading file missing.txt```".to_string())));
}

#[test]
fn inline_text_alone_and_no_text() {
    let r = resolve_text(&None, &Some("hi there".to_string()), false, None, false);
    assert_eq!(r, Ok(Some("hi there".to_string())));
    let r = resolve_text(&None, &None, true, Some("ignored".to_string()), true);
    assert_eq!(r, Ok(None));
}

#[test]
fn text_as_code_is_fenced_exactly() {
    let r = resolve_text(&None, &Some("hi".to_string()), false, None, true);
    assert_eq!(r, Ok(Some("```hi```".to_string())));
}

#[test]
fn channel_lookup() {
    let s = channels();
    assert_eq!(find_channel(Some("production".to_string()), &s), "#prod");
    assert_eq!(find_channel(Some("integration".to_string()), &s), "#int");
    assert_eq!(find_channel(Some("staging".to_string()), &s), "#stage");
    assert_eq!(find_channel(Some("hotfix".to_string()), &s), "#hot");
    assert_eq!(find_channel(Some("nonexistent".to_string()), &s), "");
    assert_eq!(find_channel(None, &s), "");
}

#[test]
fn unmapped_channel_leaves_payload_channel_unset() {
    let mut p = params(AlertType::Success, Mode::Normal);
    p.channel = Some("nonexistent".to_string());
    assert_eq!(payload(&p, no_metadata(), None).channel, None);
    p.channel = Some("production".to_string());
    assert_eq!(payload(&p, no_metadata(), None).channel.as_deref(), Some("#prod"));
}

#[test]
fn concise_mode_projection() {
    let mut p = params(AlertType::Success, Mode::Concise);
    p.message = Some("deployed".to_string());
    let out = payload(&p, full_metadata(), None);
    assert!(out.fields.is_none());
    assert_eq!(out.text, None);
    assert_eq!(out.author_name, "deployed");
    p.message = None;
    let out = payload(&p, full_metadata(), None);
    assert_eq!(out.author_name, "p/j #42");
}

#[test]
fn normal_with_info_mode_projection() {
    let mut p = params(AlertType::Success, Mode::NormalWithInfo);
    p.message = Some("deployed".to_string());
    let out = payload(&p, no_metadata(), None);
    let fields = out.fields.unwrap();
    assert_eq!(fields.len(), 2);
    assert_eq!(fields[0].title, "Job");
    assert_eq!(fields[0].value, "unknown job");
    assert!(fields[0].short);
    assert_eq!(fields[1].title, "Build");
    assert_eq!(fields[1].value, "unknown build");
    assert!(fields[1].short);
    assert_eq!(out.text.as_deref(), Some("deployed"));
}

#[test]
fn scenario_failed_normal_without_metadata() {
    let p = params(AlertType::Failed, Mode::Normal);
    let out = payload(&p, no_metadata(), None);
    assert_eq!(out.author_name, "unknown build - Failed");
    assert_eq!(out.text, None);
    assert_eq!(out.footer, None);
    assert_eq!(out.color, "#ed4b35");
    assert!(out.fields.is_none());
    assert_eq!(out.footer_icon, AlertType::Failed.icon_url());
    assert_eq!(out.thumb_url, picture_url(0));
}

#[test]
fn scenario_success_normal_with_info_full_metadata() {
    let mut p = params(AlertType::Success, Mode::NormalWithInfo);
    p.channel = Some("staging".to_string());
    let out = payload(&p, full_metadata(), None);
    assert_eq!(out.channel.as_deref(), Some("#stage"));
    let fields: Vec<(String, String)> = out
        .fields
        .unwrap()
        .into_iter()
        .map(|f| (f.title, f.value))
        .collect();
    assert_eq!(
        fields,
        vec![
            ("Job".to_string(), "p/j".to_string()),
            ("Build".to_string(), "#42".to_string())
        ]
    );
    assert_eq!(
        out.footer.as_deref(),
        Some("https://ci.example/teams/t/pipelines/p/jobs/j/builds/42")
    );
    assert_eq!(out.author_name, "p/j #42 - Success");
    assert_eq!(out.color, "#11c560");
}

#[test]
fn alert_messages() {
    let phrases: Vec<&str> = ALL_ALERTS.iter().map(|a| a.message()).collect();
    assert_eq!(
        phrases,
        vec!["Success", "Failed", "Started", "Aborted", "Fixed", "Broke", "Errored", "Custom"]
    );
}

#[test]
fn default_mode_is_normal() {
    assert_eq!(Mode::default(), Mode::Normal);
}
