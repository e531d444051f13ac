use vstd::prelude::*;
use vstd::string::StringExecFns;
use crate::models::{User, UserRole, TestResult, role_label, status_name, status_class};
use crate::text::{
    replaced, replace_all, joined_lines, or_else, text_of, text_or, decimal, decimal_text,
};

verus! {

/// Page templates, each as read from its file, or `None` when it could not be
/// read.
pub struct Templates {
    pub login: Option<String>,
    pub login_error: Option<String>,
    pub index: Option<String>,
    pub index_error: Option<String>,
    pub index_admin_link: Option<String>,
    pub admin_panel: Option<String>,
    pub admin_panel_error: Option<String>,
    pub admin_panel_user_row: Option<String>,
    pub message: Option<String>,
    pub alert_redirect: Option<String>,
    pub files_list: Option<String>,
    pub upload_page: Option<String>,
    pub test_results_list: Option<String>,
    pub test_results_list_row: Option<String>,
    pub test_results_list_empty: Option<String>,
    pub test_results_list_table: Option<String>,
    pub test_results_detail: Option<String>,
}

impl Templates {
    /// A set in which no template could be read.
    pub fn none() -> (r: Templates)
        ensures
            r.login is None && r.login_error is None && r.index is None && r.index_error is None
                && r.index_admin_link is None && r.admin_panel is None && r.admin_panel_error
                is None && r.admin_panel_user_row is None && r.message is None
                && r.alert_redirect is None && r.files_list is None && r.upload_page is None
                && r.test_results_list is None && r.test_results_list_row is None
                && r.test_results_list_empty is None && r.test_results_list_table is None
                && r.test_results_detail is None,
    {
        Templates {
            login: None,
            login_error: None,
            index: None,
            index_error: None,
            index_admin_link: None,
            admin_panel: None,
            admin_panel_error: None,
            admin_panel_user_row: None,
            message: None,
            alert_redirect: None,
            files_list: None,
            upload_page: None,
            test_results_list: None,
            test_results_list_row: None,
            test_results_list_empty: None,
            test_results_list_table: None,
            test_results_detail: None,
        }
    }
}

/// The sign-in page.
pub open spec fn login_page(t: Templates) -> Seq<char> {
    or_else(text_of(t.login), or_else(text_of(t.login_error), "Login template error"@))
}

/// The home page of `username` with `role`.
pub open spec fn index_page(t: Templates, username: Seq<char>, role: UserRole) -> Seq<char> {
    let label = role_label(role);
    let link = if role is Admin {
        or_else(text_of(t.index_admin_link), Seq::empty())
    } else {
        Seq::empty()
    };
    match text_of(t.index) {
        Some(p) => replaced(
            replaced(replaced(p, "{{username}}"@, username), "{{role}}"@, label),
            "{{admin_panel}}"@,
            link,
        ),
        None => match text_of(t.index_error) {
            Some(e) => replaced(replaced(e, "{{username}}"@, username), "{{role}}"@, label),
            None => "Index template error for "@ + username,
        },
    }
}

/// One row of the account table, from the row template `row`.
pub open spec fn user_row(row: Seq<char>, u: User) -> Seq<char> {
    let admin_sel = if u.role is Admin { "selected"@ } else { Seq::empty() };
    let regular_sel = if u.role is Regular { "selected"@ } else { Seq::empty() };
    replaced(
        replaced(
            replaced(
                replaced(row, "{{username}}"@, u.username@),
                "{{role_text}}"@,
                role_label(u.role),
            ),
            "{{is_admin_selected}}"@,
            admin_sel,
        ),
        "{{is_regular_selected}}"@,
        regular_sel,
    )
}

/// The rows of the account table, one line per user, in order.
pub open spec fn user_rows(row: Seq<char>, users: Seq<User>) -> Seq<char> {
    joined_lines(Seq::new(users.len(), |i: int| user_row(row, users[i])))
}

/// A notice of style `class` that says `text`.
pub open spec fn message_html(t: Templates, class: Seq<char>, text: Seq<char>) -> Seq<char> {
    match text_of(t.message) {
        Some(p) => replaced(replaced(p, "{{message_class}}"@, class), "{{message_text}}"@, text),
        None => "<div class=\""@ + class + "\">"@ + text + "</div>"@,
    }
}

/// The notice for an optional message, empty when there is none.
pub open spec fn optional_message_html(
    t: Templates,
    class: Seq<char>,
    text: Option<Seq<char>>,
) -> Seq<char> {
    match text {
        Some(m) => message_html(t, class, m),
        None => Seq::empty(),
    }
}

/// The account administration page.
pub open spec fn admin_page(
    t: Templates,
    users: Seq<User>,
    error_message: Option<Seq<char>>,
    success_message: Option<Seq<char>>,
) -> Seq<char> {
    let users_html = match text_of(t.admin_panel_user_row) {
        Some(row) => user_rows(row, users),
        None => "<p>加载用户列表时出错</p>"@,
    };
    let error_html = optional_message_html(t, "error-message"@, error_message);
    let success_html = optional_message_html(t, "success-message"@, success_message);
    match text_of(t.admin_panel) {
        Some(p) => replaced(
            replaced(replaced(p, "{{users_html}}"@, users_html), "{{error_html}}"@, error_html),
            "{{success_html}}"@,
            success_html,
        ),
        None => match text_of(t.admin_panel_error) {
            Some(e) => replaced(
                replaced(
                    replaced(e, "{{error_html}}"@, error_html),
                    "{{success_html}}"@,
                    success_html,
                ),
                "{{users_html}}"@,
                users_html,
            ),
            None => "Admin panel template error"@,
        },
    }
}

/// A page that shows `message` and then goes to `url`.
pub open spec fn alert_page(t: Templates, message: Seq<char>, url: Seq<char>) -> Seq<char> {
    match text_of(t.alert_redirect) {
        Some(p) => replaced(replaced(p, "{{message}}"@, message), "{{redirect_url}}"@, url),
        None => "<script>alert('"@ + message + "'); window.location.href='"@ + url
            + "';</script>"@,
    }
}

/// The page listing the files of `target`, around the listing `content`.
pub open spec fn files_page(t: Templates, target: Seq<char>, content: Seq<char>) -> Seq<char> {
    match text_of(t.files_list) {
        Some(p) => replaced(
            replaced(p, "{{target_username}}"@, target),
            "{{files_content}}"@,
            content,
        ),
        None => "Error loading file list template for "@ + target,
    }
}

/// The upload page.
pub open spec fn upload_page(t: Templates) -> Seq<char> {
    or_else(text_of(t.upload_page), "Error loading upload page template"@)
}

/// The page listing evaluation results, around the listing `content`.
pub open spec fn results_page(t: Templates, content: Seq<char>) -> Seq<char> {
    match text_of(t.test_results_list) {
        Some(p) => replaced(p, "{{results_content}}"@, content),
        None => "Error loading test results list template"@,
    }
}

/// Appends `line` to `out`, after a newline unless it is the first line.
fn append_line(out: &mut String, first: bool, line: &str)
    ensures
        final(out)@ == (if first { old(out)@ + line@ } else { old(out)@ + "\n"@ + line@ }),
{
    if !first {
        out.append("\n");
    }
    out.append(line);
}

/// Sign-in page.
pub fn login_template(t: &Templates) -> (r: String)
    ensures
        r@ == login_page(*t),
{
    match &t.login {
        Some(p) => p.clone(),
        None => text_or(&t.login_error, "Login template error"),
    }
}

/// Home page of `username`, whose role is `role`; administrators also get the
/// link to the administration page.
pub fn index_template(t: &Templates, username: &str, role: &UserRole) -> (r: String)
    ensures
        r@ == index_page(*t, username@, *role),
{
    proof {
        reveal_strlit("{{username}}");
        reveal_strlit("{{role}}");
        reveal_strlit("{{admin_panel}}");
        reveal_strlit("");
    }
    let label = role.label();
    let link = match role {
        UserRole::Admin => text_or(&t.index_admin_link, ""),
        UserRole::Regular => String::new(),
    };
    match &t.index {
        Some(p) => {
            let a = replace_all(p.as_str(), "{{username}}", username);
            let b = replace_all(a.as_str(), "{{role}}", label);
            assert(link@ == (if *role is Admin {
                or_else(text_of(t.index_admin_link), Seq::empty())
            } else {
                Seq::empty()
            }));
            replace_all(b.as_str(), "{{admin_panel}}", link.as_str())
        },
        None => match &t.index_error {
            Some(e) => {
                let a = replace_all(e.as_str(), "{{username}}", username);
                replace_all(a.as_str(), "{{role}}", label)
            },
            None => {
                let mut r = String::from_str("Index template error for ");
                r.append(username);
                r
            },
        },
    }
}

/// The account table rows, one line per user, from the row template; `None`
/// when the row template could not be read.
pub fn build_users_html(t: &Templates, users: &[User]) -> (r: Option<String>)
    ensures
        t.admin_panel_user_row is None ==> r is None,
        t.admin_panel_user_row matches Some(row) ==> r matches Some(h) && h@ == user_rows(
            row@,
            users@,
        ),
{
    let row = match &t.admin_panel_user_row {
        Some(row) => row,
        None => {
            return None;
        },
    };
    let ghost lines = Seq::new(users@.len(), |i: int| user_row(row@, users@[i]));
    let mut out = String::new();
    let mut i: usize = 0;
    while i < users.len()
        invariant
            i <= users@.len(),
            lines == Seq::new(users@.len(), |i: int| user_row(row@, users@[i])),
            out@ == joined_lines(lines.take(i as int)),
        decreases users@.len() - i,
    {
        proof {
            reveal_strlit("{{username}}");
            reveal_strlit("{{role_text}}");
            reveal_strlit("{{is_admin_selected}}");
            reveal_strlit("{{is_regular_selected}}");
            reveal_strlit("");
        }
        let u = &users[i];
        let admin_sel = if u.role == UserRole::Admin { "selected" } else { "" };
        let regular_sel = if u.role == UserRole::Regular { "selected" } else { "" };
        let a = replace_all(row.as_str(), "{{username}}", u.username.as_str());
        let b = replace_all(a.as_str(), "{{role_text}}", u.role.label());
        let c = replace_all(b.as_str(), "{{is_admin_selected}}", admin_sel);
        let d = replace_all(c.as_str(), "{{is_regular_selected}}", regular_sel);
        assert(lines[i as int] == user_row(row@, users@[i as int]));
        assert(admin_sel@ == (if u.role is Admin { "selected"@ } else { Seq::<char>::empty() }));
        assert(regular_sel@ == (if u.role is Regular { "selected"@ } else { Seq::<char>::empty() }));
        assert(d@ == lines[i as int]);
        append_line(&mut out, i == 0, d.as_str());
        assert(lines.take(i + 1).drop_last() =~= lines.take(i as int));
        assert(i == 0 ==> lines.take(i + 1) =~= seq![lines[0]]);
        i = i + 1;
    }
    assert(lines.take(users@.len() as int) =~= lines);
    Some(out)
}

/// A notice of style `message_class` that says `message_text`.
pub fn render_message_template(t: &Templates, message_class: &str, message_text: &str) -> (r:
    String)
    ensures
        r@ == message_html(*t, message_class@, message_text@),
{
    proof {
        reveal_strlit("{{message_class}}");
        reveal_strlit("{{message_text}}");
    }
    match &t.message {
        Some(p) => {
            let a = replace_all(p.as_str(), "{{message_class}}", message_class);
            replace_all(a.as_str(), "{{message_text}}", message_text)
        },
        None => {
            let mut r = String::from_str("<div class=\"");
            r.append(message_class);
            r.append("\">");
            r.append(message_text);
            r.append("</div>");
            r
        },
    }
}

fn optional_message(t: &Templates, class: &str, text: Option<&str>) -> (r: String)
    ensures
        r@ == optional_message_html(
            *t,
            class@,
            match text {
                Some(m) => Some(m@),
                None => None,
            },
        ),
{
    proof {
        reveal_strlit("");
    }
    match text {
        Some(m) => render_message_template(t, class, m),
        None => String::new(),
    }
}

/// The account administration page: the account table, and the error and
/// success notices when given.
pub fn admin_panel_template(
    t: &Templates,
    users: &[User],
    error_message: Option<&str>,
    success_message: Option<&str>,
) -> (r: String)
    ensures
        r@ == admin_page(
            *t,
            users@,
            match error_message {
                Some(m) => Some(m@),
                None => None,
            },
            match success_message {
                Some(m) => Some(m@),
                None => None,
            },
        ),
{
    proof {
        reveal_strlit("{{users_html}}");
        reveal_strlit("{{error_html}}");
        reveal_strlit("{{success_html}}");
    }
    let users_html = match build_users_html(t, users) {
        Some(h) => h,
        None => String::from_str("<p>加载用户列表时出错</p>"),
    };
    let error_html = optional_message(t, "error-message", error_message);
    let success_html = optional_message(t, "success-message", success_message);
    match &t.admin_panel {
        Some(p) => {
            let a = replace_all(p.as_str(), "{{users_html}}", users_html.as_str());
            let b = replace_all(a.as_str(), "{{error_html}}", error_html.as_str());
            replace_all(b.as_str(), "{{success_html}}", success_html.as_str())
        },
        None => match &t.admin_panel_error {
            Some(e) => {
                let a = replace_all(e.as_str(), "{{error_html}}", error_html.as_str());
                let b = replace_all(a.as_str(), "{{success_html}}", success_html.as_str());
                replace_all(b.as_str(), "{{users_html}}", users_html.as_str())
            },
            None => String::from_str("Admin panel template error"),
        },
    }
}

/// A page that shows `message` and then goes to `redirect_url`.
pub fn alert_redirect_template(t: &Templates, message: &str, redirect_url: &str) -> (r: String)
    ensures
        r@ == alert_page(*t, message@, redirect_url@),
{
    proof {
        reveal_strlit("{{message}}");
        reveal_strlit("{{redirect_url}}");
    }
    match &t.alert_redirect {
        Some(p) => {
            let a = replace_all(p.as_str(), "{{message}}", message);
            replace_all(a.as_str(), "{{redirect_url}}", redirect_url)
        },
        None => {
            let mut r = String::from_str("<script>alert('");
            r.append(message);
            r.append("'); window.location.href='");
            r.append(redirect_url);
            r.append("';</script>");
            r
        },
    }
}

/// The page listing the files of `target_username` around the listing
/// `files_content_html`.
pub fn files_list_template(t: &Templates, target_username: &str, files_content_html: &str) -> (r:
    String)
    ensures
        r@ == files_page(*t, target_username@, files_content_html@),
{
    proof {
        reveal_strlit("{{target_username}}");
        reveal_strlit("{{files_content}}");
    }
    match &t.files_list {
        Some(p) => {
            let a = replace_all(p.as_str(), "{{target_username}}", target_username);
            replace_all(a.as_str(), "{{files_content}}", files_content_html)
        },
        None => {
            let mut r = String::from_str("Error loading file list template for ");
            r.append(target_username);
            r
        },
    }
}

/// The upload page.
pub fn upload_page_template(t: &Templates) -> (r: String)
    ensures
        r@ == upload_page(*t),
{
    text_or(&t.upload_page, "Error loading upload page template")
}

/// The page listing evaluation results around the listing
/// `results_content_html`.
pub fn test_results_list_template(t: &Templates, results_content_html: &str) -> (r: String)
    ensures
        r@ == results_page(*t, results_content_html@),
{
    proof {
        reveal_strlit("{{results_content}}");
    }
    match &t.test_results_list {
        Some(p) => replace_all(p.as_str(), "{{results_content}}", results_content_html),
        None => String::from_str("Error loading test results list template"),
    }
}

/// What chrono's `DateTime::from_timestamp(secs, 0)` formatted with
/// `"%Y-%m-%d %H:%M:%S"` gives, or `None` outside chrono's range.
pub uninterp spec fn utc_text(secs: int) -> Option<Seq<char>>;

/// Relies on chrono's `DateTime::<Utc>::from_timestamp` and `format`: the UTC
/// date and time of `secs` seconds after the Unix epoch as
/// `YYYY-MM-DD hh:mm:ss`, or `None` when chrono cannot represent it; the
/// result depends on `secs` alone.
#[verifier::external_body]
fn format_utc(secs: i64) -> (r: Option<String>)
    ensures
        text_of(r) == utc_text(secs as int),
{
    match chrono::DateTime::from_timestamp(secs, 0) {
        Some(dt) => Some(dt.format("%Y-%m-%d %H:%M:%S").to_string()),
        None => None,
    }
}

/// The shown date and time of `secs`; `未知` when it cannot be represented.
pub open spec fn time_text(secs: int) -> Seq<char> {
    or_else(utc_text(secs), "未知"@)
}

/// The shown time of `secs`.
pub fn time_display(secs: i64) -> (r: String)
    ensures
        r@ == time_text(secs as int),
{
    let f = format_utc(secs);
    text_or(&f, "未知")
}

/// One row of the result table, from the row template `row`.
pub open spec fn result_row(row: Seq<char>, r: TestResult) -> Seq<char> {
    replaced(
        replaced(
            replaced(
                replaced(
                    replaced(row, "{{id}}"@, decimal(r.id as int)),
                    "{{username}}"@,
                    r.username@,
                ),
                "{{status_class}}"@,
                status_class(r.status),
            ),
            "{{status}}"@,
            status_name(r.status),
        ),
        "{{created_at}}"@,
        time_text(r.created_at as int),
    )
}

/// The listing of evaluation results: a notice when there are none, else the
/// table of rows, one line per result, in order.
pub open spec fn results_content(t: Templates, results: Seq<TestResult>) -> Seq<char> {
    if results.len() == 0 {
        or_else(text_of(t.test_results_list_empty), "<p>暂无测试结果</p>"@)
    } else {
        match (text_of(t.test_results_list_row), text_of(t.test_results_list_table)) {
            (Some(row), Some(table)) => replaced(
                table,
                "{{rows_html}}"@,
                joined_lines(Seq::new(results.len(), |i: int| result_row(row, results[i]))),
            ),
            _ => "<p>加载测试结果列表时出错</p>"@,
        }
    }
}

/// The listing of evaluation results.
pub fn build_test_results_content_html(t: &Templates, results: &[TestResult]) -> (r: String)
    ensures
        r@ == results_content(*t, results@),
{
    if results.len() == 0 {
        return text_or(&t.test_results_list_empty, "<p>暂无测试结果</p>");
    }
    let row = match &t.test_results_list_row {
        Some(row) => row,
        None => {
            return String::from_str("<p>加载测试结果列表时出错</p>");
        },
    };
    let ghost lines = Seq::new(results@.len(), |i: int| result_row(row@, results@[i]));
    let mut out = String::new();
    let mut i: usize = 0;
    while i < results.len()
        invariant
            i <= results@.len(),
            lines == Seq::new(results@.len(), |i: int| result_row(row@, results@[i])),
            out@ == joined_lines(lines.take(i as int)),
        decreases results@.len() - i,
    {
        proof {
            reveal_strlit("{{id}}");
            reveal_strlit("{{username}}");
            reveal_strlit("{{status_class}}");
            reveal_strlit("{{status}}");
            reveal_strlit("{{created_at}}");
        }
        let res = &results[i];
        let id = decimal_text(res.id as i64);
        let created = time_display(res.created_at);
        let a = replace_all(row.as_str(), "{{id}}", id.as_str());
        let b = replace_all(a.as_str(), "{{username}}", res.username.as_str());
        let c = replace_all(b.as_str(), "{{status_class}}", res.status.css_class());
        let d = replace_all(c.as_str(), "{{status}}", res.status.name());
        let e = replace_all(d.as_str(), "{{created_at}}", created.as_str());
        assert(lines[i as int] == result_row(row@, results@[i as int]));
        assert(e@ == lines[i as int]);
        append_line(&mut out, i == 0, e.as_str());
        assert(lines.take(i + 1).drop_last() =~= lines.take(i as int));
        assert(i == 0 ==> lines.take(i + 1) =~= seq![lines[0]]);
        i = i + 1;
    }
    assert(lines.take(results@.len() as int) =~= lines);
    proof {
        reveal_strlit("{{rows_html}}");
    }
    match &t.test_results_list_table {
        Some(table) => replace_all(table.as_str(), "{{rows_html}}", out.as_str()),
        None => String::from_str("<p>加载测试结果列表时出错</p>"),
    }
}

/// The error section of a result's page: empty when there is no diagnostic.
pub open spec fn error_section(error: Option<Seq<char>>) -> Seq<char> {
    match error {
        Some(e) => "<h2>错误</h2><div class=\"error\">"@ + e + "</div>"@,
        None => Seq::empty(),
    }
}

/// The page of one evaluation result.
pub open spec fn detail_page(t: Templates, r: TestResult) -> Seq<char> {
    match text_of(t.test_results_detail) {
        Some(p) => replaced(
            replaced(
                replaced(
                    replaced(
                        replaced(
                            replaced(
                                replaced(
                                    replaced(p, "{{id}}"@, decimal(r.id as int)),
                                    "{{username}}"@,
                                    r.username@,
                                ),
                                "{{status_class}}"@,
                                status_class(r.status),
                            ),
                            "{{status}}"@,
                            status_name(r.status),
                        ),
                        "{{created_at}}"@,
                        time_text(r.created_at as int),
                    ),
                    "{{updated_at}}"@,
                    time_text(r.updated_at as int),
                ),
                "{{output}}"@,
                or_else(text_of(r.output), "无输出"@),
            ),
            "{{error_section}}"@,
            error_section(text_of(r.error)),
        ),
        None => "Error loading test result detail template for ID "@ + decimal(r.id as int),
    }
}

/// The page of one evaluation result: its status, times, output and
/// diagnostic.
pub fn test_results_detail_template(t: &Templates, result: &TestResult) -> (r: String)
    ensures
        r@ == detail_page(*t, *result),
{
    proof {
        reveal_strlit("{{id}}");
        reveal_strlit("{{username}}");
        reveal_strlit("{{status_class}}");
        reveal_strlit("{{status}}");
        reveal_strlit("{{created_at}}");
        reveal_strlit("{{updated_at}}");
        reveal_strlit("{{output}}");
        reveal_strlit("{{error_section}}");
        reveal_strlit("");
    }
    let id = decimal_text(result.id as i64);
    match &t.test_results_detail {
        Some(p) => {
            let created = time_display(result.created_at);
            let updated = time_display(result.updated_at);
            let output = text_or(&result.output, "无输出");
            let section = match &result.error {
                Some(e) => {
                    let mut s = String::from_str("<h2>错误</h2><div class=\"error\">");
                    s.append(e.as_str());
                    s.append("</div>");
                    s
                },
                None => String::new(),
            };
            let a = replace_all(p.as_str(), "{{id}}", id.as_str());
            let b = replace_all(a.as_str(), "{{username}}", result.username.as_str());
            let c = replace_all(b.as_str(), "{{status_class}}", result.status.css_class());
            let d = replace_all(c.as_str(), "{{status}}", result.status.name());
            let e = replace_all(d.as_str(), "{{created_at}}", created.as_str());
            let f = replace_all(e.as_str(), "{{updated_at}}", updated.as_str());
            let g = replace_all(f.as_str(), "{{output}}", output.as_str());
            replace_all(g.as_str(), "{{error_section}}", section.as_str())
        },
        None => {
            let mut r = String::from_str("Error loading test result detail template for ID ");
            r.append(id.as_str());
            r
        },
    }
}

} // verus!
