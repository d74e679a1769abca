use mail_automation::contacts::{
    find_columns, import_contacts_from_csv, ImportError, RowIssue, RowIssueKind,
};

#[test]
fn imports_valid_rows_and_reports_skipped_ones() {
    let csv = "Email,FirstName,last_name,Company\n\
               ann@x.com,Ann,Lee,Acme\n\
               ,Bob,Ray,Beta\n\
               not-an-address,Cy,,\n\
               \x20 dan@x.com ,  ,Doe,  \n";
    let plan = import_contacts_from_csv(5, csv).unwrap();
    assert_eq!(plan.contacts.len(), 2);
    let ann = &plan.contacts[0];
    assert_eq!(ann.contact_list_id, 5);
    assert_eq!(ann.email, "ann@x.com");
    assert_eq!(ann.first_name.as_deref(), Some("Ann"));
    assert_eq!(ann.last_name.as_deref(), Some("Lee"));
    assert_eq!(ann.custom_fields, vec![("Company".to_string(), "Acme".to_string())]);
    let dan = &plan.contacts[1];
    assert_eq!(dan.email, "dan@x.com");
    assert_eq!(dan.first_name, None);
    assert_eq!(dan.last_name.as_deref(), Some("Doe"));
    assert!(dan.custom_fields.is_empty());
    assert_eq!(
        plan.issues,
        vec![
            RowIssue { record: 1, kind: RowIssueKind::EmptyEmail },
            RowIssue { record: 2, kind: RowIssueKind::InvalidEmail },
        ]
    );
}

#[test]
fn missing_email_column_is_refused() {
    assert_eq!(import_contacts_from_csv(1, "name,phone\nann,1\n"), Err(ImportError::NoEmailColumn));
}

#[test]
fn record_with_wrong_cell_count_is_unreadable() {
    let plan = import_contacts_from_csv(1, "email,first_name\na@x.com,A\nb@x.com\nc@x.com,C\n").unwrap();
    assert_eq!(plan.contacts.len(), 2);
    assert_eq!(plan.issues, vec![RowIssue { record: 1, kind: RowIssueKind::Unreadable }]);
}

#[test]
fn column_names_compare_in_lower_case() {
    let headers = vec!["Id".to_string(), "EMAIL".to_string(), "First_Name".to_string()];
    let cols = find_columns(&headers).unwrap();
    assert_eq!(cols.email, 1);
    assert_eq!(cols.first_name, Some(2));
    assert_eq!(cols.last_name, None);
}

#[test]
fn header_only_export_imports_nothing() {
    let plan = import_contacts_from_csv(1, "email\n").unwrap();
    assert!(plan.contacts.is_empty());
    assert!(plan.issues.is_empty());
}

#[test]
fn email_column_present_means_success() {
    let plan = import_contacts_from_csv(3, "id,email\n1\n2,b@x.com\n").unwrap();
    assert_eq!(plan.contacts.len(), 1);
    assert_eq!(plan.issues, vec![RowIssue { record: 0, kind: RowIssueKind::Unreadable }]);
}
