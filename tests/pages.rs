use oj_judge::models::{TestResult, TestStatus, User, UserRole};
use oj_judge::templates::{
    admin_panel_template, alert_redirect_template, build_test_results_content_html,
    build_users_html, files_list_template, index_template, login_template,
    render_message_template, test_results_detail_template, test_results_list_template,
    time_display, upload_page_template, Templates,
};

fn user(id: i32, name: &str, role: UserRole) -> User {
    User { id, username: name.to_string(), password: "pw".to_string(), role }
}

fn result(id: i32, status: TestStatus, output: Option<&str>, error: Option<&str>) -> TestResult {
    TestResult {
        id,
        user_id: 1,
        username: "bob".to_string(),
        status,
        output: output.map(|s| s.to_string()),
        error: error.map(|s| s.to_string()),
        created_at: 0,
        updated_at: 86_400 + 3_661,
    }
}

#[test]
fn login_page_falls_back_in_order() {
    let mut t = Templates::none();
    assert_eq!(login_template(&t), "Login template error");
    t.login_error = Some("oops".to_string());
    assert_eq!(login_template(&t), "oops");
    t.login = Some("<form/>".to_string());
    assert_eq!(login_template(&t), "<form/>");
}

#[test]
fn index_page_fills_placeholders() {
    let mut t = Templates::none();
    t.index = Some("{{username}}|{{role}}|{{admin_panel}}|{{username}}".to_string());
    t.index_admin_link = Some("<a>admin</a>".to_string());
    assert_eq!(index_template(&t, "amy", &UserRole::Admin), "amy|管理员|<a>admin</a>|amy");
    assert_eq!(index_template(&t, "bo", &UserRole::Regular), "bo|普通用户||bo");
}

#[test]
fn index_page_fallbacks() {
    let mut t = Templates::none();
    assert_eq!(index_template(&t, "amy", &UserRole::Admin), "Index template error for amy");
    t.index_error = Some("{{username}} ({{role}}) {{admin_panel}}".to_string());
    assert_eq!(index_template(&t, "amy", &UserRole::Admin), "amy (管理员) {{admin_panel}}");
}

#[test]
fn user_rows_are_joined_by_newlines() {
    let mut t = Templates::none();
    let users = vec![user(1, "admin", UserRole::Admin), user(2, "cy", UserRole::Regular)];
    assert_eq!(build_users_html(&t, &users), None);
    t.admin_panel_user_row = Some(
        "{{username}}:{{role_text}}:{{is_admin_selected}}:{{is_regular_selected}}".to_string(),
    );
    assert_eq!(
        build_users_html(&t, &users).as_deref(),
        Some("admin:管理员:selected:\ncy:普通用户::selected")
    );
    assert_eq!(build_users_html(&t, &[]).as_deref(), Some(""));
}

#[test]
fn message_notice_with_and_without_template() {
    let mut t = Templates::none();
    assert_eq!(render_message_template(&t, "error-message", "bad"), "<div class=\"error-message\">bad</div>");
    t.message = Some("<p class='{{message_class}}'>{{message_text}}</p>".to_string());
    assert_eq!(render_message_template(&t, "ok", "fine"), "<p class='ok'>fine</p>");
}

#[test]
fn admin_page_assembles_parts() {
    let mut t = Templates::none();
    let users = vec![user(1, "cy", UserRole::Regular)];
    assert_eq!(admin_panel_template(&t, &users, None, None), "Admin panel template error");
    t.admin_panel = Some("[{{users_html}}][{{error_html}}][{{success_html}}]".to_string());
    assert_eq!(
        admin_panel_template(&t, &users, Some("e"), None),
        "[<p>加载用户列表时出错</p>][<div class=\"error-message\">e</div>][]"
    );
    t.admin_panel_user_row = Some("<tr>{{username}}</tr>".to_string());
    assert_eq!(
        admin_panel_template(&t, &users, None, Some("done")),
        "[<tr>cy</tr>][][<div class=\"success-message\">done</div>]"
    );
}

#[test]
fn alert_page_with_and_without_template() {
    let mut t = Templates::none();
    assert_eq!(
        alert_redirect_template(&t, "hi", "/x"),
        "<script>alert('hi'); window.location.href='/x';</script>"
    );
    t.alert_redirect = Some("{{message}}->{{redirect_url}}".to_string());
    assert_eq!(alert_redirect_template(&t, "hi", "/x"), "hi->/x");
}

#[test]
fn files_list_and_upload_and_results_pages() {
    let mut t = Templates::none();
    assert_eq!(files_list_template(&t, "cy", "<ul/>"), "Error loading file list template for cy");
    assert_eq!(upload_page_template(&t), "Error loading upload page template");
    assert_eq!(test_results_list_template(&t, "rows"), "Error loading test results list template");
    t.files_list = Some("{{target_username}}: {{files_content}}".to_string());
    t.upload_page = Some("upload".to_string());
    t.test_results_list = Some("<div>{{results_content}}</div>".to_string());
    assert_eq!(files_list_template(&t, "cy", "<ul/>"), "cy: <ul/>");
    assert_eq!(upload_page_template(&t), "upload");
    assert_eq!(test_results_list_template(&t, "rows"), "<div>rows</div>");
}

#[test]
fn time_is_shown_in_utc() {
    assert_eq!(time_display(0), "1970-01-01 00:00:00");
    assert_eq!(time_display(86_400 + 3_661), "1970-01-02 01:01:01");
    assert_eq!(time_display(i64::MAX), "未知");
}

#[test]
fn results_listing() {
    let mut t = Templates::none();
    assert_eq!(build_test_results_content_html(&t, &[]), "<p>暂无测试结果</p>");
    let rs = vec![
        result(12, TestStatus::Passed, None, None),
        result(-3, TestStatus::Error, None, None),
    ];
    assert_eq!(build_test_results_content_html(&t, &rs), "<p>加载测试结果列表时出错</p>");
    t.test_results_list_row =
        Some("{{id}} {{username}} {{status_class}} {{status}} {{created_at}}".to_string());
    assert_eq!(build_test_results_content_html(&t, &rs), "<p>加载测试结果列表时出错</p>");
    t.test_results_list_table = Some("<table>{{rows_html}}</table>".to_string());
    assert_eq!(
        build_test_results_content_html(&t, &rs),
        "<table>12 bob status-passed Passed 1970-01-01 00:00:00\n\
         -3 bob status-error Error 1970-01-01 00:00:00</table>"
    );
}

#[test]
fn result_detail_page() {
    let mut t = Templates::none();
    let r = result(5, TestStatus::Failed, None, Some("boom"));
    assert_eq!(test_results_detail_template(&t, &r), "Error loading test result detail template for ID 5");
    t.test_results_detail = Some(
        "{{id}}|{{username}}|{{status_class}}|{{status}}|{{created_at}}|{{updated_at}}|{{output}}|{{error_section}}"
            .to_string(),
    );
    assert_eq!(
        test_results_detail_template(&t, &r),
        "5|bob|status-failed|Failed|1970-01-01 00:00:00|1970-01-02 01:01:01|无输出|<h2>错误</h2><div class=\"error\">boom</div>"
    );
    let r = result(6, TestStatus::Running, Some("out"), None);
    assert!(test_results_detail_template(&t, &r).ends_with("|Running|1970-01-01 00:00:00|1970-01-02 01:01:01|out|"));
}
