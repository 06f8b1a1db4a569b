//! The credentials of an enterprise application, SAML signing certificates among
//! them.

use crate::session::{or_dash, text_or_dash};
use crate::time::{
    date_cell, days_from, days_until, fmt_date, signed_decimal, signed_number, Timestamp,
};
use vstd::prelude::*;
use vstd::string::*;

verus! {

/// The label of a credential that ends at `end`.
pub open spec fn expiry_label(end: Option<Timestamp>, now: Timestamp) -> Seq<char> {
    match end {
        None => "No expiry"@,
        Some(e) => if days_from(now@, e@) < 0 {
            "Expired"@
        } else {
            signed_decimal(days_from(now@, e@)) + "d left"@
        },
    }
}

/// The colour of a credential that ends at `end`: the last week is as red as what
/// is past, the month before it is amber.
pub open spec fn expiry_badge(end: Option<Timestamp>, now: Timestamp) -> Seq<char> {
    match end {
        None => "badge"@,
        Some(e) => if days_from(now@, e@) <= 7 {
            "badge badge--danger"@
        } else if days_from(now@, e@) <= 30 {
            "badge badge--warning"@
        } else {
            "badge badge--ok"@
        },
    }
}

/// Label and colour of a credential that ends at `end`.
pub fn cred_status(end: Option<Timestamp>, now: Timestamp) -> (r: (String, &'static str))
    ensures
        r.0@ == expiry_label(end, now),
        r.1@ == expiry_badge(end, now),
        end is None ==> r.0@ == "No expiry"@ && r.1@ == "badge"@,
        end matches Some(e) ==> (days_from(now@, e@) < 0 ==> r.0@ == "Expired"@ && r.1@
            == "badge badge--danger"@),
        end matches Some(e) ==> (0 <= days_from(now@, e@) ==> r.0@ == signed_decimal(
            days_from(now@, e@),
        ) + "d left"@),
        end matches Some(e) ==> (0 <= days_from(now@, e@) <= 7 ==> r.1@
            == "badge badge--danger"@),
        end matches Some(e) ==> (8 <= days_from(now@, e@) <= 30 ==> r.1@
            == "badge badge--warning"@),
        end matches Some(e) ==> (31 <= days_from(now@, e@) ==> r.1@ == "badge badge--ok"@),
{
    match end {
        None => ("No expiry".to_owned(), "badge"),
        Some(e) => {
            let days = days_until(now, e);
            if days < 0 {
                ("Expired".to_owned(), "badge badge--danger")
            } else {
                let mut s = signed_number(days);
                s.append("d left");
                if days <= 7 {
                    (s, "badge badge--danger")
                } else if days <= 30 {
                    (s, "badge badge--warning")
                } else {
                    (s, "badge badge--ok")
                }
            }
        },
    }
}

/// A secret or a certificate.
#[derive(Debug)]
pub struct StoredCredential {
    pub display_name: Option<String>,
    pub usage: Option<String>,
    pub end: Option<Timestamp>,
}

/// What the row of a credential shows; secrets have no usage column.
#[derive(Debug)]
pub struct CredentialRow {
    pub name: String,
    pub usage: String,
    pub expires: String,
    pub label: String,
    pub badge: &'static str,
}

/// What the row of a credential shows.
#[allow(non_snake_case)]
pub fn CredentialsContent(c: &StoredCredential, now: Timestamp) -> (r: CredentialRow)
    ensures
        r.name@ == or_dash(c.display_name),
        r.usage@ == or_dash(c.usage),
        r.expires@ == date_cell(c.end),
        r.label@ == expiry_label(c.end, now),
        r.badge@ == expiry_badge(c.end, now),
        c.end is None ==> r.label@ == "No expiry"@ && r.badge@ == "badge"@,
        c.end matches Some(e) ==> (days_from(now@, e@) < 0 ==> r.label@ == "Expired"@ && r.badge@
            == "badge badge--danger"@),
        c.end matches Some(e) ==> (0 <= days_from(now@, e@) ==> r.label@ == signed_decimal(
            days_from(now@, e@),
        ) + "d left"@),
        c.end matches Some(e) ==> (0 <= days_from(now@, e@) <= 7 ==> r.badge@
            == "badge badge--danger"@),
        c.end matches Some(e) ==> (8 <= days_from(now@, e@) <= 30 ==> r.badge@
            == "badge badge--warning"@),
        c.end matches Some(e) ==> (31 <= days_from(now@, e@) ==> r.badge@ == "badge badge--ok"@),
{
    let (label, badge) = cred_status(c.end, now);
    CredentialRow {
        name: text_or_dash(&c.display_name),
        usage: text_or_dash(&c.usage),
        expires: fmt_date(c.end),
        label,
        badge,
    }
}

} // verus!
