//! The tabs of the detail panes. A tab is kept by its key, and a key that was kept
//! or linked may be stale: it is clamped to a tab that there is.

use crate::text::same;
use vstd::prelude::*;

verus! {

proof fn lemma_keys()
    ensures
        "access"@.len() == 6,
        "access"@[0] == 'a',
        "activity"@.len() == 8,
        "activity"@[0] == 'a',
        "app_roles"@.len() == 9,
        "app_roles"@[0] == 'a',
        "authentication"@.len() == 14,
        "authentication"@[0] == 'a',
        "conditional_access"@.len() == 18,
        "conditional_access"@[0] == 'c',
        "credentials"@.len() == 11,
        "credentials"@[0] == 'c',
        "expose_api"@.len() == 10,
        "expose_api"@[0] == 'e',
        "insights"@.len() == 8,
        "insights"@[0] == 'i',
        "overview"@.len() == 8,
        "overview"@[0] == 'o',
        "owners"@.len() == 6,
        "owners"@[0] == 'o',
        "permissions"@.len() == 11,
        "permissions"@[0] == 'p',
        "provisioning"@.len() == 12,
        "provisioning"@[0] == 'p',
        "sso"@.len() == 3,
        "sso"@[0] == 's',
{
    reveal_strlit("access");
    assert("access"@.len() == 6);
    assert("access"@[0] == 'a');
    reveal_strlit("activity");
    assert("activity"@.len() == 8);
    assert("activity"@[0] == 'a');
    reveal_strlit("app_roles");
    assert("app_roles"@.len() == 9);
    assert("app_roles"@[0] == 'a');
    reveal_strlit("authentication");
    assert("authentication"@.len() == 14);
    assert("authentication"@[0] == 'a');
    reveal_strlit("conditional_access");
    assert("conditional_access"@.len() == 18);
    assert("conditional_access"@[0] == 'c');
    reveal_strlit("credentials");
    assert("credentials"@.len() == 11);
    assert("credentials"@[0] == 'c');
    reveal_strlit("expose_api");
    assert("expose_api"@.len() == 10);
    assert("expose_api"@[0] == 'e');
    reveal_strlit("insights");
    assert("insights"@.len() == 8);
    assert("insights"@[0] == 'i');
    reveal_strlit("overview");
    assert("overview"@.len() == 8);
    assert("overview"@[0] == 'o');
    reveal_strlit("owners");
    assert("owners"@.len() == 6);
    assert("owners"@[0] == 'o');
    reveal_strlit("permissions");
    assert("permissions"@.len() == 11);
    assert("permissions"@[0] == 'p');
    reveal_strlit("provisioning");
    assert("provisioning"@.len() == 12);
    assert("provisioning"@[0] == 'p');
    reveal_strlit("sso");
    assert("sso"@.len() == 3);
    assert("sso"@[0] == 's');
}

/// A tab of an app registration.
#[derive(Clone, Copy, Debug, PartialEq, Eq, Structural)]
pub enum AppTab {
    Overview,
    Credentials,
    Authentication,
    Owners,
    Permissions,
    ExposeApi,
    ConditionalAccess,
    Activity,
}

impl AppTab {
    /// The key of the tab.
    pub open spec fn key(self) -> Seq<char> {
        match self {
            AppTab::Overview => "overview"@,
            AppTab::Credentials => "credentials"@,
            AppTab::Authentication => "authentication"@,
            AppTab::Owners => "owners"@,
            AppTab::Permissions => "permissions"@,
            AppTab::ExposeApi => "expose_api"@,
            AppTab::ConditionalAccess => "conditional_access"@,
            AppTab::Activity => "activity"@,
        }
    }

    /// The tab that a key names. A key that names none is stale: the overview
    /// shows in its place.
    pub open spec fn named(key: Seq<char>) -> AppTab {
        if key == "credentials"@ {
            AppTab::Credentials
        } else if key == "authentication"@ {
            AppTab::Authentication
        } else if key == "owners"@ {
            AppTab::Owners
        } else if key == "permissions"@ {
            AppTab::Permissions
        } else if key == "expose_api"@ {
            AppTab::ExposeApi
        } else if key == "conditional_access"@ {
            AppTab::ConditionalAccess
        } else if key == "activity"@ {
            AppTab::Activity
        } else {
            AppTab::Overview
        }
    }

    /// The tab that a key names; the overview where it names none.
    pub fn from_str(key: &str) -> (r: AppTab)
        ensures
            r == AppTab::named(key@),
            r is Credentials <==> key@ == "credentials"@,
            r is Authentication <==> key@ == "authentication"@,
            r is Owners <==> key@ == "owners"@,
            r is Permissions <==> key@ == "permissions"@,
            r is ExposeApi <==> key@ == "expose_api"@,
            r is ConditionalAccess <==> key@ == "conditional_access"@,
            r is Activity <==> key@ == "activity"@,
    {
        proof {
            lemma_keys();
        }
        if same(key, "credentials") {
            AppTab::Credentials
        } else if same(key, "authentication") {
            AppTab::Authentication
        } else if same(key, "owners") {
            AppTab::Owners
        } else if same(key, "permissions") {
            AppTab::Permissions
        } else if same(key, "expose_api") {
            AppTab::ExposeApi
        } else if same(key, "conditional_access") {
            AppTab::ConditionalAccess
        } else if same(key, "activity") {
            AppTab::Activity
        } else {
            AppTab::Overview
        }
    }

    /// The key of the tab.
    pub fn value(self) -> (r: &'static str)
        ensures
            r@ == self.key(),
            self is Overview ==> r@ == "overview"@,
            self is Credentials ==> r@ == "credentials"@,
            self is Authentication ==> r@ == "authentication"@,
            self is Owners ==> r@ == "owners"@,
            self is Permissions ==> r@ == "permissions"@,
            self is ExposeApi ==> r@ == "expose_api"@,
            self is ConditionalAccess ==> r@ == "conditional_access"@,
            self is Activity ==> r@ == "activity"@,
    {
        match self {
            AppTab::Overview => "overview",
            AppTab::Credentials => "credentials",
            AppTab::Authentication => "authentication",
            AppTab::Owners => "owners",
            AppTab::Permissions => "permissions",
            AppTab::ExposeApi => "expose_api",
            AppTab::ConditionalAccess => "conditional_access",
            AppTab::Activity => "activity",
        }
    }

    /// The text on the tab.
    pub fn label(self) -> (r: &'static str)
        ensures
            r@ == match self {
                AppTab::Overview => "Overview"@,
                AppTab::Credentials => "Credentials"@,
                AppTab::Authentication => "Authentication"@,
                AppTab::Owners => "Owners"@,
                AppTab::Permissions => "Permissions"@,
                AppTab::ExposeApi => "Expose an API"@,
                AppTab::ConditionalAccess => "Conditional Access"@,
                AppTab::Activity => "Activity"@,
            },
    {
        match self {
            AppTab::Overview => "Overview",
            AppTab::Credentials => "Credentials",
            AppTab::Authentication => "Authentication",
            AppTab::Owners => "Owners",
            AppTab::Permissions => "Permissions",
            AppTab::ExposeApi => "Expose an API",
            AppTab::ConditionalAccess => "Conditional Access",
            AppTab::Activity => "Activity",
        }
    }

    /// Every tab, in the order in which they stand.
    pub fn all() -> (r: Vec<AppTab>)
        ensures
            r@ == seq![
                AppTab::Overview,
                AppTab::Credentials,
                AppTab::Authentication,
                AppTab::Owners,
                AppTab::Permissions,
                AppTab::ExposeApi,
                AppTab::ConditionalAccess,
                AppTab::Activity,
            ],
    {
        let r = vec![
            AppTab::Overview,
            AppTab::Credentials,
            AppTab::Authentication,
            AppTab::Owners,
            AppTab::Permissions,
            AppTab::ExposeApi,
            AppTab::ConditionalAccess,
            AppTab::Activity,
        ];
        proof {
            assert(r@ =~= seq![
                AppTab::Overview,
                AppTab::Credentials,
                AppTab::Authentication,
                AppTab::Owners,
                AppTab::Permissions,
                AppTab::ExposeApi,
                AppTab::ConditionalAccess,
                AppTab::Activity,
            ]);
        }
        r
    }
}

/// A tab of an enterprise application.
#[derive(Clone, Copy, Debug, PartialEq, Eq, Structural)]
pub enum EnterpriseTab {
    Overview,
    Sso,
    Credentials,
    Owners,
    Permissions,
    AppRoles,
    Access,
    Provisioning,
    ConditionalAccess,
    Activity,
}

impl EnterpriseTab {
    /// The key of the tab.
    pub open spec fn key(self) -> Seq<char> {
        match self {
            EnterpriseTab::Overview => "overview"@,
            EnterpriseTab::Sso => "sso"@,
            EnterpriseTab::Credentials => "credentials"@,
            EnterpriseTab::Owners => "owners"@,
            EnterpriseTab::Permissions => "permissions"@,
            EnterpriseTab::AppRoles => "app_roles"@,
            EnterpriseTab::Access => "access"@,
            EnterpriseTab::Provisioning => "provisioning"@,
            EnterpriseTab::ConditionalAccess => "conditional_access"@,
            EnterpriseTab::Activity => "activity"@,
        }
    }

    /// The tab that a key names. `insights` is the
    /// former name of what is now Conditional Access. A key that names none is stale: the overview
    /// shows in its place.
    pub open spec fn named(key: Seq<char>) -> EnterpriseTab {
        if key == "sso"@ {
            EnterpriseTab::Sso
        } else if key == "credentials"@ {
            EnterpriseTab::Credentials
        } else if key == "owners"@ {
            EnterpriseTab::Owners
        } else if key == "permissions"@ {
            EnterpriseTab::Permissions
        } else if key == "app_roles"@ {
            EnterpriseTab::AppRoles
        } else if key == "access"@ {
            EnterpriseTab::Access
        } else if key == "provisioning"@ {
            EnterpriseTab::Provisioning
        } else if key == "conditional_access"@ {
            EnterpriseTab::ConditionalAccess
        } else if key == "activity"@ {
            EnterpriseTab::Activity
        } else if key == "insights"@ {
            EnterpriseTab::ConditionalAccess
        } else {
            EnterpriseTab::Overview
        }
    }

    /// The tab that a key names; the overview where it names none.
    pub fn from_str(key: &str) -> (r: EnterpriseTab)
        ensures
            r == EnterpriseTab::named(key@),
            r is Sso <==> key@ == "sso"@,
            r is Credentials <==> key@ == "credentials"@,
            r is Owners <==> key@ == "owners"@,
            r is Permissions <==> key@ == "permissions"@,
            r is AppRoles <==> key@ == "app_roles"@,
            r is Access <==> key@ == "access"@,
            r is Provisioning <==> key@ == "provisioning"@,
            r is ConditionalAccess <==> key@ == "conditional_access"@ || key@ == "insights"@,
            r is Activity <==> key@ == "activity"@,
    {
        proof {
            lemma_keys();
        }
        if same(key, "sso") {
            EnterpriseTab::Sso
        } else if same(key, "credentials") {
            EnterpriseTab::Credentials
        } else if same(key, "owners") {
            EnterpriseTab::Owners
        } else if same(key, "permissions") {
            EnterpriseTab::Permissions
        } else if same(key, "app_roles") {
            EnterpriseTab::AppRoles
        } else if same(key, "access") {
            EnterpriseTab::Access
        } else if same(key, "provisioning") {
            EnterpriseTab::Provisioning
        } else if same(key, "conditional_access") {
            EnterpriseTab::ConditionalAccess
        } else if same(key, "activity") {
            EnterpriseTab::Activity
        } else if same(key, "insights") {
            EnterpriseTab::ConditionalAccess
        } else {
            EnterpriseTab::Overview
        }
    }

    /// The key of the tab.
    pub fn value(self) -> (r: &'static str)
        ensures
            r@ == self.key(),
            self is Overview ==> r@ == "overview"@,
            self is Sso ==> r@ == "sso"@,
            self is Credentials ==> r@ == "credentials"@,
            self is Owners ==> r@ == "owners"@,
            self is Permissions ==> r@ == "permissions"@,
            self is AppRoles ==> r@ == "app_roles"@,
            self is Access ==> r@ == "access"@,
            self is Provisioning ==> r@ == "provisioning"@,
            self is ConditionalAccess ==> r@ == "conditional_access"@,
            self is Activity ==> r@ == "activity"@,
    {
        match self {
            EnterpriseTab::Overview => "overview",
            EnterpriseTab::Sso => "sso",
            EnterpriseTab::Credentials => "credentials",
            EnterpriseTab::Owners => "owners",
            EnterpriseTab::Permissions => "permissions",
            EnterpriseTab::AppRoles => "app_roles",
            EnterpriseTab::Access => "access",
            EnterpriseTab::Provisioning => "provisioning",
            EnterpriseTab::ConditionalAccess => "conditional_access",
            EnterpriseTab::Activity => "activity",
        }
    }

    /// The text on the tab.
    pub fn label(self) -> (r: &'static str)
        ensures
            r@ == match self {
                EnterpriseTab::Overview => "Overview"@,
                EnterpriseTab::Sso => "Single sign-on"@,
                EnterpriseTab::Credentials => "Credentials"@,
                EnterpriseTab::Owners => "Owners"@,
                EnterpriseTab::Permissions => "Permissions"@,
                EnterpriseTab::AppRoles => "App roles"@,
                EnterpriseTab::Access => "Access"@,
                EnterpriseTab::Provisioning => "Provisioning"@,
                EnterpriseTab::ConditionalAccess => "Conditional Access"@,
                EnterpriseTab::Activity => "Activity"@,
            },
    {
        match self {
            EnterpriseTab::Overview => "Overview",
            EnterpriseTab::Sso => "Single sign-on",
            EnterpriseTab::Credentials => "Credentials",
            EnterpriseTab::Owners => "Owners",
            EnterpriseTab::Permissions => "Permissions",
            EnterpriseTab::AppRoles => "App roles",
            EnterpriseTab::Access => "Access",
            EnterpriseTab::Provisioning => "Provisioning",
            EnterpriseTab::ConditionalAccess => "Conditional Access",
            EnterpriseTab::Activity => "Activity",
        }
    }

    /// Every tab, in the order in which they stand.
    pub fn all() -> (r: Vec<EnterpriseTab>)
        ensures
            r@ == seq![
                EnterpriseTab::Overview,
                EnterpriseTab::Sso,
                EnterpriseTab::Credentials,
                EnterpriseTab::Owners,
                EnterpriseTab::Permissions,
                EnterpriseTab::AppRoles,
                EnterpriseTab::Access,
                EnterpriseTab::Provisioning,
                EnterpriseTab::ConditionalAccess,
                EnterpriseTab::Activity,
            ],
    {
        let r = vec![
            EnterpriseTab::Overview,
            EnterpriseTab::Sso,
            EnterpriseTab::Credentials,
            EnterpriseTab::Owners,
            EnterpriseTab::Permissions,
            EnterpriseTab::AppRoles,
            EnterpriseTab::Access,
            EnterpriseTab::Provisioning,
            EnterpriseTab::ConditionalAccess,
            EnterpriseTab::Activity,
        ];
        proof {
            assert(r@ =~= seq![
                EnterpriseTab::Overview,
                EnterpriseTab::Sso,
                EnterpriseTab::Credentials,
                EnterpriseTab::Owners,
                EnterpriseTab::Permissions,
                EnterpriseTab::AppRoles,
                EnterpriseTab::Access,
                EnterpriseTab::Provisioning,
                EnterpriseTab::ConditionalAccess,
                EnterpriseTab::Activity,
            ]);
        }
        r
    }
}

/// The tab on which a pane opens: what a link asked for, or else the last one
/// shown.
pub open spec fn restored(pending: Option<String>, last: String) -> Seq<char> {
    match pending {
        Some(t) => t@,
        None => last@,
    }
}

/// The key of a tab leads back to it, and clamping twice is clamping once.
pub proof fn app_tabs_are_kept_by_their_key(t: AppTab, key: Seq<char>)
    ensures
        AppTab::named("overview"@) is Overview,
        AppTab::named("credentials"@) is Credentials,
        AppTab::named("authentication"@) is Authentication,
        AppTab::named("owners"@) is Owners,
        AppTab::named("permissions"@) is Permissions,
        AppTab::named("expose_api"@) is ExposeApi,
        AppTab::named("conditional_access"@) is ConditionalAccess,
        AppTab::named("activity"@) is Activity,
        t is Overview ==> t.key() == "overview"@,
        t is Credentials ==> t.key() == "credentials"@,
        t is Authentication ==> t.key() == "authentication"@,
        t is Owners ==> t.key() == "owners"@,
        t is Permissions ==> t.key() == "permissions"@,
        t is ExposeApi ==> t.key() == "expose_api"@,
        t is ConditionalAccess ==> t.key() == "conditional_access"@,
        t is Activity ==> t.key() == "activity"@,
        key != "credentials"@ && key != "authentication"@ && key != "owners"@ && key
            != "permissions"@ && key != "expose_api"@ && key != "conditional_access"@ && key
            != "activity"@ ==> AppTab::named(key) is Overview,
        AppTab::named(t.key()) == t,
        AppTab::named(AppTab::named(key).key()) == AppTab::named(key),
{
    reveal_strlit("overview");
    assert("overview"@.len() == 8);
    reveal_strlit("credentials");
    assert("credentials"@.len() == 11);
    reveal_strlit("authentication");
    assert("authentication"@.len() == 14);
    reveal_strlit("owners");
    assert("owners"@.len() == 6);
    reveal_strlit("permissions");
    assert("permissions"@.len() == 11);
    reveal_strlit("expose_api");
    assert("expose_api"@.len() == 10);
    reveal_strlit("conditional_access");
    assert("conditional_access"@.len() == 18);
    reveal_strlit("activity");
    assert("activity"@.len() == 8);
    assert("overview"@[0] == 'o');
    assert("activity"@[0] == 'a');
    assert("credentials"@[0] == 'c');
    assert("permissions"@[0] == 'p');
}

/// The key of a tab leads back to it, and clamping twice is clamping once. What was
/// kept under the former name opens on Conditional Access.
pub proof fn enterprise_tabs_are_kept_by_their_key(t: EnterpriseTab, key: Seq<char>)
    ensures
        EnterpriseTab::named("overview"@) is Overview,
        EnterpriseTab::named("sso"@) is Sso,
        EnterpriseTab::named("credentials"@) is Credentials,
        EnterpriseTab::named("owners"@) is Owners,
        EnterpriseTab::named("permissions"@) is Permissions,
        EnterpriseTab::named("app_roles"@) is AppRoles,
        EnterpriseTab::named("access"@) is Access,
        EnterpriseTab::named("provisioning"@) is Provisioning,
        EnterpriseTab::named("conditional_access"@) is ConditionalAccess,
        EnterpriseTab::named("activity"@) is Activity,
        t is Overview ==> t.key() == "overview"@,
        t is Sso ==> t.key() == "sso"@,
        t is Credentials ==> t.key() == "credentials"@,
        t is Owners ==> t.key() == "owners"@,
        t is Permissions ==> t.key() == "permissions"@,
        t is AppRoles ==> t.key() == "app_roles"@,
        t is Access ==> t.key() == "access"@,
        t is Provisioning ==> t.key() == "provisioning"@,
        t is ConditionalAccess ==> t.key() == "conditional_access"@,
        t is Activity ==> t.key() == "activity"@,
        key != "sso"@ && key != "credentials"@ && key != "owners"@ && key != "permissions"@ && key
            != "app_roles"@ && key != "access"@ && key != "provisioning"@ && key
            != "conditional_access"@ && key != "activity"@ && key != "insights"@
            ==> EnterpriseTab::named(key) is Overview,
        EnterpriseTab::named(t.key()) == t,
        EnterpriseTab::named(EnterpriseTab::named(key).key()) == EnterpriseTab::named(key),
        EnterpriseTab::named("insights"@) is ConditionalAccess,
{
    reveal_strlit("overview");
    assert("overview"@.len() == 8);
    reveal_strlit("sso");
    assert("sso"@.len() == 3);
    reveal_strlit("credentials");
    assert("credentials"@.len() == 11);
    reveal_strlit("owners");
    assert("owners"@.len() == 6);
    reveal_strlit("permissions");
    assert("permissions"@.len() == 11);
    reveal_strlit("app_roles");
    assert("app_roles"@.len() == 9);
    reveal_strlit("access");
    assert("access"@.len() == 6);
    reveal_strlit("provisioning");
    assert("provisioning"@.len() == 12);
    reveal_strlit("conditional_access");
    assert("conditional_access"@.len() == 18);
    reveal_strlit("activity");
    assert("activity"@.len() == 8);
    reveal_strlit("insights");
    assert("insights"@.len() == 8);
    assert("overview"@[0] == 'o');
    assert("activity"@[0] == 'a');
    assert("insights"@[0] == 'i');
    assert("credentials"@[0] == 'c');
    assert("permissions"@[0] == 'p');
    assert("owners"@[0] == 'o');
    assert("access"@[0] == 'a');
}

} // verus!
