use hermes::client::{ApiError, AuthError, Hermes};
use hermes::codec::{decode_token, encode_token};
use hermes::config::{config_path, decode_config, encode_config, Config};
use hermes::model::{Credentials, Token};
use hermes::url::{resolve, ConfigError, Url};

fn base() -> Url {
    Url::parse("https://host:8080/anything?query=1").unwrap()
}

#[test]
fn url_parse_splits_the_parts() {
    let u = base();
    assert_eq!(u.scheme, "https");
    assert_eq!(u.host, "host");
    assert_eq!(u.port, "8080");
    assert_eq!(u.path, "/anything");
    assert_eq!(u.query, "query=1");
}

#[test]
fn url_parse_takes_upper_case_schemes_and_bracketed_hosts() {
    let u = Url::parse("HTTPS://host/").unwrap();
    assert_eq!(u.scheme, "HTTPS");
    assert_eq!(u.host, "host");
    let u = Url::parse("http://[::1]:8080/x?q").unwrap();
    assert_eq!(u.host, "[::1]");
    assert_eq!(u.port, "8080");
    assert_eq!(u.path, "/x");
    assert_eq!(u.query, "q");
    assert_eq!(u.render(), "http://[::1]:8080/x?q");
    let u = Url::parse("http://[::ffff:10.0.0.1]/").unwrap();
    assert_eq!(u.host, "[::ffff:10.0.0.1]");
    assert!(matches!(Url::parse("http://[]/"), Err(ConfigError::InvalidUrl)));
    assert!(matches!(Url::parse("http://[::1/"), Err(ConfigError::InvalidUrl)));
}

#[test]
fn url_parse_rejects_what_is_not_absolute() {
    assert!(matches!(Url::parse("notaurl"), Err(ConfigError::InvalidUrl)));
    assert!(matches!(Url::parse("://host"), Err(ConfigError::InvalidUrl)));
    assert!(matches!(Url::parse("http://"), Err(ConfigError::InvalidUrl)));
    assert!(matches!(Url::parse("http://h:99999"), Err(ConfigError::InvalidUrl)));
    assert!(matches!(Url::parse("http://h/p#f"), Err(ConfigError::InvalidUrl)));
}

#[test]
fn resolve_replaces_only_the_path() {
    let u = base();
    let r = resolve(&u, "api/authenticate");
    assert_eq!(r.scheme, "https");
    assert_eq!(r.host, "host");
    assert_eq!(r.port, "8080");
    assert_eq!(r.query, "query=1");
    assert_eq!(r.path, "api/authenticate");
    assert_eq!(r.render(), "https://host:8080/api/authenticate?query=1");
}

#[test]
fn token_round_trips_through_its_json_form() {
    for raw in ["abc123", "a\"b\\c", "sp ace", "päss/𝄞", "\n\t", "a\u{1}b", "\u{0}"] {
        let t = Token::new(raw.to_string());
        let body = encode_token(&t);
        let back = decode_token(&body).unwrap();
        assert!(back == t);
        assert_eq!(back.raw(), raw);
    }
}

#[test]
fn token_decode_handles_escapes_and_spaces() {
    let t = decode_token(" { \"idToken\" : \"a\\\"b\\\\c\\n\" } ").unwrap();
    assert_eq!(t.raw(), "a\"b\\c\n");
    assert!(decode_token("{\"idToken\":1}").is_none());
    assert!(decode_token("{\"other\":\"x\"}").is_none());
    assert!(decode_token("not json").is_none());
}

#[test]
fn authenticate_success_stores_and_returns_the_token() {
    let mut h = Hermes::new(base());
    let t = h.login_accept(200, "{\"idToken\":\"abc123\"}").unwrap();
    assert_eq!(t.raw(), "abc123");
    assert!(h.token.as_ref().unwrap() == &t);
}

#[test]
fn authenticate_rejection_leaves_the_token_alone() {
    let mut h = Hermes::new(base());
    let r = h.login_accept(401, "{\"idToken\":\"abc123\"}");
    assert!(matches!(r, Err(AuthError::Rejected)));
    assert!(h.token.is_none());

    let old = Token::new("old".to_string());
    h.set_token(&old);
    let r = h.login_accept(500, "");
    assert!(matches!(r, Err(AuthError::Rejected)));
    assert!(h.token.as_ref().unwrap() == &old);
}

#[test]
fn authenticate_decode_error_on_a_malformed_body() {
    let mut h = Hermes::new(base());
    let r = h.login_accept(200, "{\"unexpected\": true}");
    assert!(matches!(r, Err(AuthError::Decode)));
    assert!(h.token.is_none());
}

#[test]
fn login_request_names_the_endpoint_and_encodes_the_credentials() {
    let h = Hermes::new(base());
    let creds = Credentials {
        username: "u".to_string(),
        password: "p\"w".to_string(),
        remember_me: true,
    };
    let (url, body) = h.login_request(&creds);
    assert_eq!(url, "https://host:8080/api/authenticate?query=1");
    assert_eq!(body, "{\"username\":\"u\",\"password\":\"p\\\"w\",\"rememberMe\":true}");
}

const ONE_PROJECT: &str = "[{\"id\":1,\"title\":\"T\",\"shortName\":\"t\",\"studentGroupName\":\"sg\",\
\"teachingAssistantGroupName\":null,\"editorGroupName\":\"eg\",\"startDate\":\"2021-01-01T00:00:00Z\",\
\"endDate\":\"2021-02-01T00:00:00Z\",\"semester\":\"SS21\",\"testCourse\":false,\"onlineCourse\":true,\
\"maxComplaints\":3,\"maxTeamComplaints\":2,\"maxComplaintTimeDays\":7,\"maxComplaintTextLimit\":500,\
\"maxComplaintResponseTextLimit\":600,\"postsEnabled\":true,\"maxRequestMoreFeedbackTimeDays\":10,\
\"color\":\"#ff0000\",\"registrationEnabled\":false,\"registrationConfirmationMessage\":\"welcome\",\
\"presentationScore\":1.5,\"accuracyOfScores\":0.1,\"exercises\":[],\"complaintsEnabled\":true,\
\"validStartAndEndDate\":true,\"requestMoreFeedbackEnabled\":false}]";

#[test]
fn dashboard_decodes_one_project_field_for_field() {
    let fd = Hermes::accept_for_dashboard(200, ONE_PROJECT).unwrap();
    assert_eq!(fd.0.len(), 1);
    let p = &fd.0[0];
    assert_eq!(p.id, 1);
    assert_eq!(p.title, "T");
    assert_eq!(p.short_name, "t");
    assert_eq!(p.student_group_name, "sg");
    assert!(p.teaching_assistant_group_name.is_none());
    assert_eq!(p.editor_group_name, "eg");
    assert_eq!(p.start_date, "2021-01-01T00:00:00Z");
    assert_eq!(p.end_date, "2021-02-01T00:00:00Z");
    assert_eq!(p.semester, "SS21");
    assert!(!p.test_course);
    assert!(p.online_course);
    assert_eq!(p.max_complaints, 3);
    assert_eq!(p.max_team_complaints, 2);
    assert_eq!(p.max_complaint_time_days, 7);
    assert_eq!(p.max_complaint_text_limit, 500);
    assert_eq!(p.max_complaint_response_text_limit, 600);
    assert!(p.posts_enabled);
    assert_eq!(p.max_request_more_feedback_time_days, 10);
    assert_eq!(p.color, "#ff0000");
    assert!(!p.registration_enabled);
    assert_eq!(p.registration_confirmation_message, "welcome");
    assert_eq!(p.presentation_score, "1.5");
    assert_eq!(p.accuracy_of_scores, "0.1");
    assert!(p.exercises.is_empty());
    assert!(p.complaints_enabled);
    assert!(p.valid_start_and_end_date);
    assert!(!p.request_more_feedback_enabled);
}

#[test]
fn dashboard_malformed_body_is_a_decode_error() {
    let r = Hermes::accept_for_dashboard(200, "{\"unexpected\": true}");
    assert!(matches!(r, Err(ApiError::Decode)));
    let r = Hermes::accept_for_dashboard(200, "[{\"id\":1}]");
    assert!(matches!(r, Err(ApiError::Decode)));
    let r = Hermes::accept_for_dashboard(404, ONE_PROJECT);
    assert!(matches!(r, Err(ApiError::Rejected)));
}

const INFO: &str = "{\"build\":{\"artifact\":\"artemis\",\"name\":\"Artemis\",\
\"time\":\"2021-01-01T00:00:00Z\",\"version\":\"5.0.0\",\"group\":\"de.tum\"},\
\"java\":{\"vendor\":\"Eclipse\",\"version\":\"17\",\"runtime\":{\"name\":\"OpenJDK\",\
\"version\":\"17.0.1\"},\"jvm\":{\"name\":\"HotSpot\",\"vendor\":\"Eclipse\",\"version\":\"17\"}},\
\"programmingLanguageFeatures\":[{\"programmingLanguage\":\"java\",\"sequentialTestRuns\":true,\
\"staticCodeAnalysis\":true,\"plagiarismCheckSupported\":true,\"packageNameRequired\":true,\
\"checkoutSolutionRepositoryAllowed\":false,\"projectTypes\":[\"maven\",\"gradle\"]}],\
\"features\":[\"f1\"],\"accountName\":\"acct\",\"versionControlUrl\":\"https://vc\",\
\"commitHashURLTemplate\":\"c\",\"sshCloneURLTemplate\":\"s\",\"buildPlanURLTemplate\":\"b\",\
\"activeProfiles\":[\"prod\"]}";

#[test]
fn info_decodes_field_for_field() {
    let x = Hermes::accept_info(200, INFO).unwrap();
    assert_eq!(x.build.artifact, "artemis");
    assert_eq!(x.build.version, "5.0.0");
    assert_eq!(x.java.vendor, "Eclipse");
    assert_eq!(x.java.runtime.name, "OpenJDK");
    assert_eq!(x.java.jvm.name, "HotSpot");
    assert_eq!(x.programming_language_features.len(), 1);
    assert_eq!(x.programming_language_features[0].project_types, vec!["maven", "gradle"]);
    assert_eq!(x.features, vec!["f1"]);
    assert_eq!(x.account_name, "acct");
    assert_eq!(x.commit_hash_url_template, "c");
    assert_eq!(x.ssh_clone_url_template, "s");
    assert_eq!(x.build_plan_url_template, "b");
    assert_eq!(x.active_profiles, vec!["prod"]);
}

#[test]
fn set_token_twice_keeps_exactly_the_last_value() {
    let mut h = Hermes::new(base());
    let ua = h.user_agent.clone();
    h.set_token(&Token::new("first".to_string()));
    h.set_token(&Token::new("second".to_string()));
    assert_eq!(h.token.as_ref().unwrap().raw(), "second");
    assert_eq!(h.user_agent, ua);
    assert_eq!(h.base_url.host, "host");
    assert_eq!(h.base_url.port, "8080");
}

#[test]
fn request_builders_attach_the_bearer_token() {
    let h = Hermes::new(base()).token(Token::new("tok".to_string()));
    let (url, bearer) = h.dashboard_request();
    assert_eq!(url, "https://host:8080/api/courses/for-dashboard?query=1");
    assert_eq!(bearer, "tok");
    let (url, _) = h.info_request();
    assert_eq!(url, "https://host:8080/management/info?query=1");
    let none = Hermes::new(base());
    let (_, bearer) = none.dashboard_request();
    assert_eq!(bearer, "");
}

#[test]
fn config_round_trips_through_its_file_form() {
    let mut c = Config::new("https://host/".to_string());
    assert!(!c.has_token());
    let body = encode_config(&c);
    assert_eq!(body, "{\"token\":null,\"endpoint\":\"https://host/\"}");
    let back = decode_config(&body).unwrap();
    assert!(!back.has_token());
    assert_eq!(back.endpoint, "https://host/");

    c.set_token(&Token::new("abc".to_string()));
    assert!(c.has_token());
    let body = encode_config(&c);
    assert_eq!(body, "{\"token\":{\"idToken\":\"abc\"},\"endpoint\":\"https://host/\"}");
    let back = decode_config(&body).unwrap();
    assert_eq!(back.token.unwrap().raw(), "abc");
}

#[test]
fn config_path_prefers_the_override() {
    assert_eq!(config_path(Some("/tmp/x".to_string())), "/tmp/x");
    assert_eq!(config_path(None), ".apollo");
}

#[test]
fn unnamed_control_characters_are_written_as_unicode_escapes() {
    let t = Token::new("a\u{1}b".to_string());
    assert_eq!(encode_token(&t), "{\"idToken\":\"a\\u0001b\"}");
}

#[test]
fn unicode_escapes_are_read_back() {
    assert_eq!(decode_token("{\"idToken\":\"\\u0041\\u00e9\"}").unwrap().raw(), "A\u{e9}");
    assert!(decode_token("{\"idToken\":\"\\ud800\"}").is_none());
    assert!(decode_token("{\"idToken\":\"\\u12\"}").is_none());
    assert!(decode_token("{\"idToken\":\"\\u12zz\"}").is_none());
}

#[test]
fn an_empty_token_is_never_a_successful_authentication() {
    let mut h = Hermes::new(base());
    let r = h.login_accept(200, "{\"idToken\":\"\"}");
    assert!(matches!(r, Err(AuthError::Decode)));
    assert!(h.token.is_none());
}
