use azapptoolkit_views::application_detail_pane::ApplicationDetailPane;
use azapptoolkit_views::dialogs::add_owner::{OwnerRef, OwnerRun};
use azapptoolkit_views::enterprise::access::{
    can_leave, resolve_role, role_options, AccessContent, GroupError, GroupMembershipSection,
};
use azapptoolkit_views::enterprise::app_roles::{
    intro, member_types_label, role_row, AppRole, AppRolesContent,
};
use azapptoolkit_views::enterprise::credentials::{
    cred_status, CredentialsContent, StoredCredential,
};
use azapptoolkit_views::enterprise::overview::OverviewContent;
use azapptoolkit_views::enterprise::owners::{
    candidates, Candidates, DirectoryUser, OwnerChange, OwnersContent,
};
use azapptoolkit_views::enterprise::panel::{
    delete_warning, EnterpriseAppPanel, EnterpriseApplicationDetailPane,
};
use azapptoolkit_views::enterprise::panels::{
    job_row, ActivityContent, CaContent, PrincipalIds, ProvisioningContent, ProvisioningJob,
};
use azapptoolkit_views::enterprise::permissions::{
    has_sites, mail_values, HeldGrant, PermissionsContent,
};
use azapptoolkit_views::enterprise::sso_tab::{SsoConfig, SsoContent, SsoEditor, SsoFields};
use azapptoolkit_views::session::{Toast, UiError};
use azapptoolkit_views::tabs::{AppTab, EnterpriseTab};
use azapptoolkit_views::time::Timestamp;

fn tenant() -> Option<String> {
    Some("tenant".into())
}

fn error(code: &str) -> UiError {
    UiError { code: code.into(), message: "it broke".into(), retryable: false }
}

fn strings(v: &[&str]) -> Vec<String> {
    v.iter().map(|s| s.to_string()).collect()
}

fn said(t: Toast) -> String {
    match t {
        Toast::Success(s) => s,
        Toast::Failure(s) => format!("! {s}"),
    }
}

fn role(id: &str, name: &str, value: &str, types: &[&str], on: Option<bool>) -> AppRole {
    AppRole {
        id: id.into(),
        display_name: name.into(),
        value: value.into(),
        description: None,
        allowed_member_types: strings(types),
        is_enabled: on,
    }
}

#[test]
fn member_types_have_words() {
    assert_eq!(member_types_label(&strings(&[])), "—");
    assert_eq!(
        member_types_label(&strings(&["User", "Application", "Other"])),
        "Users/Groups, Applications, Other"
    );
}

#[test]
fn a_built_in_role_has_no_buttons() {
    let r = role_row(&role("1", "msiam_access", " ", &["User"], None));
    assert_eq!(r.switch, None);
    assert_eq!(r.state, "Enabled");
    let off = role_row(&role("1", "Writers", "Task.Write", &[], Some(false)));
    assert_eq!((off.state, off.badge, off.switch), ("Disabled", "badge--unknown", Some("Enable")));
    assert!(intro(&Some("application".into())).starts_with("Roles are defined"));
    assert!(intro(&None).starts_with("Roles this app exposes"));
}

#[test]
fn a_role_form_says_what_is_missing() {
    let mut t = AppRolesContent::new();
    t.open_add();
    assert_eq!(t.form.title(), "Add an app role");
    assert!(t.save(&tenant()).is_none());
    assert_eq!(t.upsert.error.as_deref(), Some("Display name and value are required."));
    t.form.display = " Writers ".into();
    t.form.value = "Task.Write".into();
    t.form.member_user = false;
    assert!(t.save(&tenant()).is_none());
    assert_eq!(t.upsert.error.as_deref(), Some("Select at least one allowed member type."));
    t.form.member_app = true;
    let i = t.save(&tenant()).unwrap();
    assert_eq!(i.display_name, "Writers");
    assert_eq!(i.allowed_member_types, strings(&["Application"]));
    assert_eq!(i.description, None);
    assert_eq!(i.id, None);
    assert!(t.saved(true, Err(error("x"))).is_none());
    assert!(t.dialog_open);
    t.save(&tenant());
    assert_eq!(t.saved(true, Ok(())), Some("App role added."));
    assert!(!t.dialog_open);
}

#[test]
fn an_unchanged_edit_keeps_the_role_as_it_is() {
    let mut r = role("7", "Writers", "Task.Write", &["User", "Application"], Some(false));
    r.description = Some("they write".into());
    let mut t = AppRolesContent::new();
    t.open_edit(&r);
    assert_eq!(t.form.title(), "Edit app role");
    let i = t.save(&tenant()).unwrap();
    assert_eq!(i.id.as_deref(), Some("7"));
    assert_eq!(i.value, "Task.Write");
    assert_eq!(i.description.as_deref(), Some("they write"));
    assert_eq!(i.allowed_member_types, strings(&["User", "Application"]));
    assert!(!i.is_enabled);
    assert_eq!(t.saved(false, Ok(())), Some("App role updated."));
}

#[test]
fn a_role_is_switched_and_deleted() {
    let r = role("7", "Writers", "Task.Write", &["User"], None);
    let mut t = AppRolesContent::new();
    let off = t.switch(&r, &tenant()).unwrap();
    assert!(!off.is_enabled);
    assert!(t.busy_any());
    assert_eq!(said(t.was_switched(false, Ok(()))), "App role disabled.");
    assert!(t.do_delete(&tenant()).is_none());
    t.ask_delete("7".into());
    t.keep();
    assert!(t.do_delete(&tenant()).is_none());
    t.ask_delete("7".into());
    assert_eq!(t.do_delete(&tenant()).as_deref(), Some("7"));
    assert_eq!(said(t.deleted(Err(error("x")))), "! it broke");
    assert_eq!(t.pending_delete, None);
}

#[test]
fn a_role_id_has_a_name() {
    let roles = vec![
        role("a", "", "Task.Read", &[], None),
        role("b", "Writers", "Task.Write", &[], Some(false)),
    ];
    assert_eq!(
        resolve_role(&roles, "00000000-0000-0000-0000-000000000000"),
        "Default access"
    );
    assert_eq!(resolve_role(&roles, "a"), "Task.Read");
    assert_eq!(resolve_role(&roles, "b"), "Writers");
    assert_eq!(resolve_role(&roles, "c"), "c");
    assert_eq!(role_options(&roles), vec![0]);
}

#[test]
fn access_is_granted_after_the_question() {
    let mut a = AccessContent::new();
    a.raw_query = "bo".into();
    a.set_kind("users");
    assert_eq!(a.raw_query, "bo");
    a.set_kind("groups");
    assert!(a.searches_groups() && a.raw_query.is_empty());
    assert!(a.confirm_assign(&tenant()).is_none());
    a.pending_assign = Some("p".into());
    let x = a.confirm_assign(&tenant()).unwrap();
    assert_eq!(x.principal_id, "p");
    assert_eq!(x.role, "00000000-0000-0000-0000-000000000000");
    assert!(a.row_busy("p") && !a.row_busy("q"));
    a.pending_remove = Some("r".into());
    assert!(a.confirm_remove(&tenant()).is_none());
    assert_eq!(a.pending_remove, None);
    assert_eq!(a.assigned(Ok(())), Some("Access granted."));
    a.pending_remove = Some("r".into());
    assert_eq!(a.confirm_remove(&tenant()).as_deref(), Some("r"));
    assert_eq!(a.removed(Err(error("x"))), None);
    assert_eq!(a.error.as_deref(), Some("it broke"));
}

#[test]
fn a_group_change_is_sent_again_once_consent_is_given() {
    let mut g = GroupMembershipSection::new();
    g.pending_add = Some("g1".into());
    let c = g.confirm_add(&tenant()).unwrap();
    assert!(c.add);
    assert!(g.mutated(c, Err(error("consent_required"))).is_none());
    match g.error_view() {
        Some(GroupError::Consent(t)) => {
            assert_eq!(t, "Group membership changes need consent — it broke")
        }
        other => panic!("{other:?}"),
    }
    assert!(g.on_consent(&tenant()));
    assert!(!g.on_consent(&tenant()));
    let again = g.consented(Ok(()), &tenant()).unwrap();
    assert_eq!((again.add, again.group_id.as_str()), (true, "g1"));
    assert!(g.busy && g.retry_op.is_none());
    assert_eq!(g.mutated(again, Ok(())), Some("Added to group."));
    g.pending_remove = Some("g2".into());
    let r = g.confirm_remove(&tenant()).unwrap();
    assert!(g.mutated(r, Err(error("other"))).is_none());
    match g.error_view() {
        Some(GroupError::Other(t)) => assert_eq!(t, "error [other]: it broke"),
        other => panic!("{other:?}"),
    }
    assert!(can_leave(&strings(&["Unified"])));
    assert!(!can_leave(&strings(&["DynamicMembership"])));
}

fn stamp(days: i64) -> Timestamp {
    Timestamp::new(1_790_000_000 + days * 86_400, 0).unwrap()
}

#[test]
fn credentials_are_coloured_by_their_end() {
    let now = stamp(0);
    let of = |d: i64| cred_status(Some(stamp(d)), now);
    assert_eq!(cred_status(None, now), ("No expiry".to_string(), "badge"));
    assert_eq!(of(-1), ("Expired".to_string(), "badge badge--danger"));
    assert_eq!(of(0), ("0d left".to_string(), "badge badge--danger"));
    assert_eq!(of(7), ("7d left".to_string(), "badge badge--danger"));
    assert_eq!(of(8), ("8d left".to_string(), "badge badge--warning"));
    assert_eq!(of(30), ("30d left".to_string(), "badge badge--warning"));
    assert_eq!(of(31), ("31d left".to_string(), "badge badge--ok"));
    let row = CredentialsContent(
        &StoredCredential { display_name: None, usage: Some("Sign".into()), end: Some(stamp(8)) },
        now,
    );
    assert_eq!((row.name.as_str(), row.usage.as_str(), row.label.as_str()), ("—", "Sign", "8d left"));
    assert_eq!(row.expires, "2026-09-29");
}

#[test]
fn a_switch_shows_what_was_set_here() {
    let mut o = OverviewContent::new(&strings(&["HideApp"]), None, Some(true), &None);
    assert_eq!(o.hidden_row().label, "Hidden");
    assert_eq!(o.enabled_row().label, "Unknown");
    assert_eq!(o.enabled_row().button, "Disable sign-in");
    assert_eq!(o.assignment_row().label, "Required");
    assert_eq!(o.toggle_enabled(&tenant()), Some(false));
    assert_eq!(o.toggle_enabled(&tenant()), None);
    assert_eq!(said(o.enabled_set(false, Err(error("x")))), "! it broke");
    assert_eq!(o.enabled_row().label, "Unknown");
    assert_eq!(o.toggle_enabled(&tenant()), Some(false));
    o.enabled_set(false, Ok(()));
    assert_eq!(o.enabled_row().label, "Disabled");
    assert_eq!(o.toggle_enabled(&tenant()), Some(true));
    assert_eq!(o.toggle_visibility(&tenant()), Some(false));
    assert_eq!(said(o.visibility_set(false, Ok(()))), "Visible on the My Apps portal.");
    assert_eq!(o.hidden_row().button, "Hide from My Apps");
    assert_eq!(o.toggle_assign(&tenant()), Some(false));
    assert_eq!(said(o.assign_set(false, Ok(()))), "Assignment no longer required.");
    o.notes_text = " as typed ".into();
    assert_eq!(o.save_notes(&tenant()).as_deref(), Some(" as typed "));
    assert_eq!(said(o.notes_saved(Ok(()))), "Notes saved.");
}

fn user(id: &str, name: Option<&str>) -> DirectoryUser {
    DirectoryUser {
        id: id.into(),
        display_name: name.map(String::from),
        user_principal_name: None,
    }
}

#[test]
fn owners_are_not_offered_again() {
    let found = Ok(vec![user("1", Some("Bo")), user("2", None)]);
    match candidates("bo", &found, &strings(&["1"])) {
        Candidates::Shown(v) => assert_eq!(v, vec![1]),
        other => panic!("{other:?}"),
    }
    assert!(matches!(candidates("bo", &found, &strings(&["1", "2"])), Candidates::Nothing));
    assert!(matches!(candidates("b", &found, &strings(&[])), Candidates::Hidden));
    match candidates("bo", &Err("down".into()), &strings(&[])) {
        Candidates::Failed(t) => assert_eq!(t, "Search failed: down"),
        other => panic!("{other:?}"),
    }
    assert_eq!(user("2", None).title(), "2");
    assert_eq!(user("1", Some("Bo")).title(), "Bo");
    assert_eq!(user("1", Some("Bo")).subtitle(), "1");
}

#[test]
fn an_owner_is_removed_after_the_question() {
    let mut o = OwnersContent::new();
    assert!(o.mutate(&OwnerChange { add: true, principal_id: "1".into() }, &tenant()));
    assert!(o.row_busy("1"));
    o.ask_remove("2".into());
    assert!(o.confirm_remove(&tenant()).is_none());
    assert_eq!(o.mutated(true, Err(error("x"))), None);
    assert_eq!(o.error.as_deref(), Some("it broke"));
    o.ask_remove("2".into());
    let c = o.confirm_remove(&tenant()).unwrap();
    assert_eq!((c.add, c.principal_id.as_str()), (false, "2"));
    assert_eq!(o.mutated(false, Ok(())), Some("Owner removed."));
    assert!(OwnersContent::searches("ab", &tenant()));
    assert_eq!(OwnersContent::search_text(" ab", &tenant()).as_deref(), Some("ab"));
    assert_eq!(OwnersContent::search_text("a", &tenant()), None);
    assert_eq!(OwnersContent::search_text("ab", &None), None);
}

#[test]
fn default_owners_of_an_enterprise_app() {
    let mut o = OwnersContent::new();
    assert!(!o.add_defaults(&None));
    assert!(o.add_defaults(&tenant()));
    assert!(!o.add_defaults(&tenant()));
    assert!(!o.defaults_found(&vec![]));
    assert!(o.add_defaults(&tenant()));
    let mut run = OwnerRun::new();
    run.note(&OwnerRef { id: "9".into(), display_name: None }, Err(error("x")));
    assert_eq!(o.defaults_finished(&run), None);
    assert_eq!(o.error.as_deref(), Some("1 default owner(s) failed — 9: it broke"));
    assert_eq!(
        o.defaults_finished(&OwnerRun { added: 2, failures: vec![] }).unwrap(),
        "Added 2 default owner(s)."
    );
    assert_eq!(
        o.defaults_finished(&OwnerRun::new()).unwrap(),
        "Default owners are already present."
    );
}

#[test]
fn a_link_to_a_tab_is_used_once() {
    let mut pending = Some("permissions".to_string());
    let p = EnterpriseAppPanel::new(&mut pending, &"overview".to_string());
    assert_eq!(p.active_tab, "permissions");
    assert_eq!(pending, None);
    let q = EnterpriseAppPanel::new(&mut pending, &"owners".to_string());
    assert_eq!(q.active_tab, "owners");
    let pane = EnterpriseApplicationDetailPane { service_principal_id: "s".into() };
    assert_eq!(pane.request(&None).unwrap_err().code, "no_tenant");
    assert_eq!(pane.request(&tenant()).unwrap(), "tenant");
}

#[test]
fn a_foreign_app_is_deleted_by_the_word_only() {
    let mut p = EnterpriseAppPanel::new(&mut None, &"overview".to_string());
    p.delete_open = true;
    assert!(p.confirm_dialog(false, String::new()).can_confirm());
    assert!(!p.confirm_dialog(true, String::new()).can_confirm());
    assert!(p.confirm_dialog(true, "DELETE".into()).can_confirm());
    assert!(delete_warning(true).contains("owned outside your tenant"));
    assert!(p.do_delete(&tenant()));
    assert!(!p.do_delete(&tenant()));
    assert_eq!(p.deleted(Err(error("x"))), None);
    assert!(p.delete_open);
    p.do_delete(&tenant());
    assert_eq!(p.deleted(Ok(())), Some("Enterprise application deleted."));
    assert!(!p.delete_open);
}

#[test]
fn provisioning_tells_a_missing_consent_from_a_failure() {
    let of = |code: &str| ProvisioningContent::of(&Err(error(code)));
    assert_eq!(of("forbidden"), ProvisioningContent::Unavailable);
    assert_eq!(of("consent_required"), ProvisioningContent::Unavailable);
    assert_eq!(of("throttled"), ProvisioningContent::Failed);
    assert_eq!(ProvisioningContent::of(&Ok(vec![])), ProvisioningContent::NotConfigured);
    let job = |status: Option<&str>, state: Option<&str>, run: Option<&str>| ProvisioningJob {
        id: "j".into(),
        template_id: None,
        status_code: status.map(String::from),
        last_state: state.map(String::from),
        last_run: run.map(String::from),
    };
    let a = job_row(&job(Some("Active"), Some("ok"), Some("today")));
    assert_eq!((a.label.as_str(), a.badge, a.last.as_str()), ("Active", "badge badge--ok", "ok — today"));
    assert_eq!(job_row(&job(Some("Quarantine"), Some("ok"), None)).badge, "badge badge--danger");
    assert_eq!(job_row(&job(Some("Paused"), None, Some("x"))).badge, "badge badge--warning");
    let u = job_row(&job(None, None, Some("x")));
    assert_eq!((u.label.as_str(), u.badge, u.last.as_str(), u.title.as_str()), ("Unknown", "badge", "—", "j"));
}

#[test]
fn activity_covers_the_paired_registration() {
    let ids = PrincipalIds {
        id: "sp".into(),
        app_id: "app".into(),
        paired_app_registration_id: Some("obj".into()),
    };
    let a = ActivityContent(&ids);
    assert_eq!((a.primary_id.as_str(), a.secondary_id.as_deref()), ("sp", Some("obj")));
    assert_eq!(CaContent(&ids), "app");
}

#[test]
fn held_permissions_open_their_sections() {
    let g = |v: Option<&str>, mail: bool, sites: bool| HeldGrant {
        app_role_value: v.map(String::from),
        mail_scopable: mail,
        sites_orgwide: sites,
    };
    let list = vec![
        g(Some("Mail.Read"), true, false),
        g(None, true, true),
        g(Some("User.Read"), false, false),
        g(Some("Mail.Send"), true, false),
    ];
    assert_eq!(mail_values(&list), strings(&["Mail.Read", "Mail.Send"]));
    assert!(!has_sites(&list));
    assert!(has_sites(&vec![g(Some("Sites.Selected"), false, false)]));
    assert!(has_sites(&vec![g(Some("Sites.Read.All"), false, true)]));
}

#[test]
fn the_scope_wizard_forgets_its_pick_when_it_closes() {
    let mut p: PermissionsContent<u8> = PermissionsContent::new();
    p.scope(7);
    assert_eq!(p.wizard_preseed, Some(7));
    p.close_wizard();
    p.open_wizard();
    assert_eq!(p.wizard_preseed, None);
    p.ask_revoke("a".into());
    assert_eq!(p.confirm_revoke(&tenant()).as_deref(), Some("a"));
    assert!(!p.revoked(Err(error("x"))));
    assert_eq!(p.revoke.error.as_deref(), Some("it broke"));
    assert!(p.pending_revoke.is_some());
    p.confirm_revoke(&tenant());
    assert!(p.revoked(Ok(())));
    assert_eq!(p.pending_revoke, None);
    p.ask_revoke("b".into());
    p.keep();
    assert_eq!(p.confirm_revoke(&tenant()), None);
}

fn config(mode: Option<&str>) -> SsoConfig {
    SsoConfig {
        sso_mode: mode.map(String::from),
        identifier_uris: strings(&["urn:x"]),
        reply_urls: strings(&[" https://x/acs ", ""]),
        logout_url: None,
        notification_emails: strings(&["a@x"]),
        redirect_uris: strings(&["https://web"]),
        spa_redirect_uris: strings(&[]),
        claims_policy: mode.map(|_| strings(&["{\"ID\":\"mail\"}"])),
    }
}

#[test]
fn the_editor_shows_the_saved_method() {
    let mut e = SsoEditor::new(&config(Some("saml")));
    assert_eq!(e.fields(), SsoFields::Saml);
    assert_eq!(e.selected_mode, "saml");
    e.selected_mode = "oidc".into();
    assert_eq!(e.fields(), SsoFields::Saml);
    assert_eq!(e.summary_protocol(), Some("saml"));
    assert_eq!(e.apply_mode(&tenant()).as_deref(), Some("oidc"));
    let s = e.mode_applied(Ok(()));
    assert_eq!((said(s.toast).as_str(), s.reload), ("Single sign-on method updated.", true));
    let p = SsoEditor::new(&config(Some("password")));
    assert_eq!(p.fields(), SsoFields::NotConfigured);
    assert_eq!(p.selected_mode, "disabled");
    assert_eq!(p.saved_mode_label(), "password");
    assert_eq!(p.summary_protocol(), None);
    assert_eq!(SsoEditor::new(&config(None)).saved_mode_label(), "not configured");
    assert_eq!(SsoEditor::new(&config(Some("oidc"))).summary_protocol(), Some("oidc"));
}

#[test]
fn the_editor_saves_one_thing_at_a_time() {
    let mut e = SsoEditor::new(&config(Some("saml")));
    let u = e.save_saml_urls(&tenant()).unwrap();
    assert_eq!(u.reply_urls, strings(&["https://x/acs"]));
    assert_eq!(u.logout_url, None);
    assert!(e.save_oidc_uris(&tenant()).is_none());
    let s = e.saml_urls_saved(Ok(()));
    assert_eq!((said(s.toast).as_str(), s.reload), ("SAML configuration saved.", true));
    assert_eq!(e.save_oidc_uris(&tenant()).unwrap().web, strings(&["https://web"]));
    let s = e.oidc_uris_saved(Ok(()));
    assert_eq!((said(s.toast).as_str(), s.reload), ("Redirect URIs saved.", true));
    assert_eq!(e.save_notification_emails(&tenant()).unwrap(), strings(&["a@x"]));
    let s = e.notification_emails_saved(Ok(()));
    assert_eq!((said(s.toast).as_str(), s.reload), ("Notification emails saved.", false));
    e.cert_subject = " CN=x ".into();
    assert_eq!(e.rotate_cert(&tenant()).as_deref(), Some("CN=x"));
    let s = e.cert_rotated(Ok(("AB12".into(), Some("base64".into()))));
    assert_eq!((said(s.toast).as_str(), s.reload), ("New signing certificate: AB12", true));
    assert_eq!(e.rotated_cert.as_deref(), Some("base64"));
    let m = e.save_claims(&tenant()).unwrap();
    assert_eq!((m.name, m.claims), ("Custom claims", strings(&["{\"ID\":\"mail\"}"])));
    let s = e.claims_saved(Err(error("consent_required")));
    assert_eq!((said(s.toast).as_str(), s.reload), ("! it broke", false));
    assert!(e.needs_consent);
    assert!(e.grant_consent(&tenant()));
    let s = e.consent_granted(Ok(()));
    assert_eq!((said(s.toast).as_str(), s.reload), ("Consent granted. Save again to apply your claims.", false));
    assert!(!e.needs_consent);
    e.claims = strings(&["a", "b"]);
    assert_eq!(e.save_claims(&tenant()).unwrap().claims, strings(&["a", "b"]));
    assert!(e.save_claims(&tenant()).is_none());
    let s = e.claims_saved(Ok(()));
    assert_eq!((said(s.toast).as_str(), s.reload), ("Attributes & claims saved.", true));
}

#[test]
fn a_failed_save_reads_nothing_again() {
    let mut e = SsoEditor::new(&config(Some("saml")));
    assert!(!e.mode_applied(Err(error("x"))).reload);
    assert!(!e.saml_urls_saved(Err(error("x"))).reload);
    assert!(!e.oidc_uris_saved(Err(error("x"))).reload);
    assert!(!e.notification_emails_saved(Err(error("x"))).reload);
    assert!(!e.cert_rotated(Err(error("x"))).reload);
    assert!(!e.needs_consent);
}

#[test]
fn without_a_tenant_nothing_is_configured() {
    match SsoContent::of(&tenant()) {
        SsoContent::Read(t) => assert_eq!(t, "tenant"),
        other => panic!("{other:?}"),
    }
    match SsoContent::of(&None) {
        SsoContent::Given(cfg) => {
            let e = SsoEditor::new(&cfg);
            assert_eq!(e.fields(), SsoFields::NotConfigured);
            assert!(e.claims.is_empty() && e.identifiers.is_empty());
        }
        other => panic!("{other:?}"),
    }
}

#[test]
fn a_stale_tab_is_clamped() {
    for (kept, shown) in [
        ("insights", "conditional_access"),
        ("activity", "activity"),
        ("no such tab", "overview"),
        ("", "overview"),
    ] {
        let p = EnterpriseAppPanel::new(&mut None, &kept.to_string());
        assert_eq!(p.active_tab, shown);
        let q = EnterpriseAppPanel::new(&mut Some(kept.to_string()), &"owners".to_string());
        assert_eq!(q.active_tab, shown);
    }
    let a = ApplicationDetailPane::new(&mut None, &"sso".to_string());
    assert_eq!(a.active_tab, "overview");
    let b = ApplicationDetailPane::new(&mut None, &"expose_api".to_string());
    assert_eq!(b.active_tab, "expose_api");
    for t in EnterpriseTab::all() {
        assert_eq!(EnterpriseTab::from_str(t.value()), t);
    }
    for t in AppTab::all() {
        assert_eq!(AppTab::from_str(t.value()), t);
    }
    assert_eq!(EnterpriseTab::all().len(), 10);
    assert_eq!(AppTab::all().len(), 8);
    assert_eq!(EnterpriseTab::Sso.label(), "Single sign-on");
    assert_eq!(AppTab::ExposeApi.label(), "Expose an API");
}
