//! The data model: credentials, the session token, and the read-only
//! snapshots the service answers with.

use vstd::prelude::*;

verus! {

/// What a user hands over to authenticate.
pub struct Credentials {
    pub username: String,
    pub password: String,
    pub remember_me: bool,
}

/// The opaque bearer credential the service issues. It is never parsed;
/// the library only compares it and writes it out as it stands.
pub struct Token {
    id_token: String,
}

impl Token {
    /// Wraps a raw token string.
    pub fn new(raw: String) -> (r: Token)
        ensures
            r@ == raw@,
    {
        Token { id_token: raw }
    }

    /// The raw string under the token.
    pub fn raw(&self) -> (r: &str)
        ensures
            r@ == self@,
    {
        self.id_token.as_str()
    }
}

impl View for Token {
    type V = Seq<char>;

    closed spec fn view(&self) -> Seq<char> {
        self.id_token@
    }
}

impl Clone for Token {
    fn clone(&self) -> (r: Self)
        ensures
            r@ == self@,
    {
        Token { id_token: self.id_token.clone() }
    }
}

impl PartialEq for Token {
    fn eq(&self, other: &Self) -> (r: bool) {
        self.id_token == other.id_token
    }
}

impl vstd::std_specs::cmp::PartialEqSpecImpl for Token {
    open spec fn obeys_eq_spec() -> bool {
        true
    }

    open spec fn eq_spec(&self, other: &Self) -> bool {
        self@ == other@
    }
}

/// The ordered list of projects the dashboard returns.
pub struct ForDashboard(pub Vec<Project>);

/// The student a participation belongs to.
///
/// Dates are kept as the text the service sent.
pub struct Student {
    pub id: u32,
    pub login: String,
    pub first_name: String,
    pub last_name: String,
    pub email: String,
    pub activated: bool,
    pub lang_key: String,
    pub last_notification_read: String,
    pub name: String,
    pub internal: bool,
    pub participant_identifier: String,
}

/// One submission within a participation or a result.
///
/// Dates are kept as the text the service sent.
pub struct Submission {
    pub id: u32,
    pub submission_exercise_type: String,
    pub submitted: bool,
    pub kind: String,
    pub submission_date: String,
    pub commit_hash: String,
    pub build_failed: bool,
    pub build_artifact: bool,
    pub empty: bool,
    pub duration_in_minutes: u32,
}

/// A graded result attached to a participation.
///
/// Dates are kept as the text the service sent; score fields keep the
/// raw number token, since the library never does arithmetic on them.
pub struct ParitcipationResult {
    pub id: u32,
    pub result_string: String,
    pub completion_date: String,
    pub successful: bool,
    pub score: String,
    pub rated: bool,
    pub has_feedback: bool,
    pub submission: Submission,
    pub assessment_type: String,
    pub has_complaint: Option<bool>,
}

/// A student's participation in an exercise.
///
/// Dates are kept as the text the service sent.
pub struct StudentParticipation {
    pub kind: String,
    pub id: u32,
    pub initialization_state: String,
    pub initialization_date: String,
    pub test_run: bool,
    pub results: Vec<ParitcipationResult>,
    pub submissions: Vec<Submission>,
    pub student: Student,
    pub repository_url: String,
    pub branch: Option<String>,
    pub user_independent_repository_url: String,
    pub participant_identifier: String,
    pub participant_name: String,
}

/// One exercise of a project, with its grading settings.
///
/// Dates are kept as the text the service sent; score fields keep the
/// raw number token, since the library never does arithmetic on them.
pub struct Exercise {
    pub kind: String,
    pub id: u32,
    pub title: String,
    pub short_name: String,
    pub max_points: String,
    pub bonus_points: String,
    pub assessment_type: String,
    pub release_date: String,
    pub due_date: String,
    pub difficulty: Option<String>,
    pub mode: String,
    pub allow_complaints_for_automatic_assessments: bool,
    pub included_in_overall_score: String,
    pub presentation_score_enabled: bool,
    pub second_correction_enabled: bool,
    pub student_participations: Vec<StudentParticipation>,
    pub publish_build_plan_url: bool,
    pub allow_online_editor: bool,
    pub allow_offline_ide: bool,
    pub static_code_analysis_enabled: bool,
    pub programming_language: String,
    pub package_name: String,
    pub sequential_test_runs: bool,
    pub show_test_names_to_students: bool,
    pub test_cases_changed: bool,
    pub project_key: String,
    pub project_type: String,
    pub testwise_coverage_enabled: bool,
    pub branch: String,
    pub checkout_solution_repository: bool,
    pub exercise_type: String,
    pub is_local_simulation: bool,
    pub released: bool,
    pub student_assigned_team_id_computed: bool,
    pub grading_instruction_feedback_used: bool,
    pub example_solution_published: bool,
    pub visible_to_students: bool,
    pub team_mode: bool,
}

/// A course or project as the dashboard lists it.
///
/// Dates are kept as the text the service sent; score fields keep the
/// raw number token, since the library never does arithmetic on them.
pub struct Project {
    pub id: u32,
    pub title: String,
    pub short_name: String,
    pub student_group_name: String,
    pub teaching_assistant_group_name: Option<String>,
    pub editor_group_name: String,
    pub start_date: String,
    pub end_date: String,
    pub semester: String,
    pub test_course: bool,
    pub online_course: bool,
    pub max_complaints: u32,
    pub max_team_complaints: u32,
    pub max_complaint_time_days: u32,
    pub max_complaint_text_limit: u32,
    pub max_complaint_response_text_limit: u32,
    pub posts_enabled: bool,
    pub max_request_more_feedback_time_days: u32,
    pub color: String,
    pub registration_enabled: bool,
    pub registration_confirmation_message: String,
    pub presentation_score: String,
    pub accuracy_of_scores: String,
    pub exercises: Vec<Exercise>,
    pub complaints_enabled: bool,
    pub valid_start_and_end_date: bool,
    pub request_more_feedback_enabled: bool,
}

/// The runtime the server reports.
pub struct RuntimeInfo {
    pub name: String,
    pub version: String,
}

/// The virtual machine the server reports.
pub struct JVMInfo {
    pub name: String,
    pub vendor: String,
    pub version: String,
}

/// The Java environment the server reports.
pub struct JavaInfo {
    pub vendor: String,
    pub version: String,
    pub runtime: RuntimeInfo,
    pub jvm: JVMInfo,
}

/// The build the server was made from.
///
/// Dates are kept as the text the service sent.
pub struct BuildInfo {
    pub artifact: String,
    pub name: String,
    pub time: String,
    pub version: String,
    pub group: String,
}

/// What the server supports for one programming language.
pub struct LanguageFeature {
    pub programming_language: String,
    pub sequential_test_runs: bool,
    pub static_code_analysis: bool,
    pub plagiarism_check_supported: bool,
    pub package_name_required: bool,
    pub checkout_solution_repository_allowed: bool,
    pub project_types: Vec<String>,
}

/// The server build, version and feature report.
pub struct InfoRes {
    pub build: BuildInfo,
    pub java: JavaInfo,
    pub programming_language_features: Vec<LanguageFeature>,
    pub features: Vec<String>,
    pub account_name: String,
    pub version_control_url: String,
    pub commit_hash_url_template: String,
    pub ssh_clone_url_template: String,
    pub build_plan_url_template: String,
    pub active_profiles: Vec<String>,
}

} // verus!
