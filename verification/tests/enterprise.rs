use azapptoolkit_views::enterprise::access::group_type_label;

fn types(v: &[&str]) -> Vec<String> {
    v.iter().map(|s| s.to_string()).collect()
}

#[test]
fn group_type_label_classifies_kinds() {
    // The security group a tenant setting would be scoped to.
    assert_eq!(group_type_label(Some(true), &types(&[])), "Security");
    // "Unified" wins over the security flag.
    assert_eq!(
        group_type_label(Some(true), &types(&["Unified"])),
        "Microsoft 365"
    );
    // Neither unified nor security-enabled, an unreadable flag among them.
    assert_eq!(group_type_label(Some(false), &types(&[])), "Distribution");
    assert_eq!(group_type_label(None, &types(&[])), "Distribution");
}

#[test]
fn group_type_label_flags_dynamic_membership() {
    assert_eq!(
        group_type_label(Some(true), &types(&["DynamicMembership"])),
        "Security · Dynamic"
    );
    assert_eq!(
        group_type_label(None, &types(&["Unified", "DynamicMembership"])),
        "Microsoft 365 · Dynamic"
    );
}
