use roe::client::static_peer;
use roe::commands::application::{
    activate_rows, activate_table, build_activate_request, build_terminate_application_request,
    list_rows, list_table, ActivateApplicationResponse, ActiveApplication,
    ListActiveApplicationsResponse,
};
use roe::commands::deploy::{
    build_deploy_request, deploy_rows, deploy_table, parse_env_var, parse_env_vars, DeployResponse,
};
use roe::commands::info::{info_rows, info_table, info_title, InfoResponse, ListeningAddress};
use roe::commands::terminate::{
    build_terminate_request, terminate_rows, terminate_table, TerminateResponse,
};
use roe::output::OutputFormat;

#[test]
fn parse_env_var_splits_at_first_equals() {
    let e = parse_env_var("ENV=production").unwrap();
    assert_eq!(e.key, "ENV");
    assert_eq!(e.value, "production");
    let e = parse_env_var("A=b=c").unwrap();
    assert_eq!(e.key, "A");
    assert_eq!(e.value, "b=c");
    let e = parse_env_var("=").unwrap();
    assert_eq!(e.key, "");
    assert_eq!(e.value, "");
}

#[test]
fn parse_env_var_without_equals_is_refused() {
    let err = parse_env_var("NOVALUE").unwrap_err();
    assert_eq!(err, "env-var 'NOVALUE' must be in KEY=VALUE format");
    let err = parse_env_var("").unwrap_err();
    assert_eq!(err, "env-var '' must be in KEY=VALUE format");
}

#[test]
fn application_parse_env_var_matches_deploy() {
    let e = roe::commands::application::parse_env_var("K=V").unwrap();
    assert_eq!((e.key.as_str(), e.value.as_str()), ("K", "V"));
    assert!(roe::commands::application::parse_env_var("KV").is_err());
}

#[test]
fn parse_env_vars_stops_at_first_error() {
    let raw = vec!["A=1".to_string(), "B".to_string(), "C".to_string()];
    assert_eq!(parse_env_vars(&raw).unwrap_err(), "env-var 'B' must be in KEY=VALUE format");
    let raw = vec!["A=1".to_string(), "B=2".to_string()];
    let v = parse_env_vars(&raw).unwrap();
    assert_eq!(v.len(), 2);
    assert_eq!(v[1].key, "B");
    assert_eq!(v[1].value, "2");
}

#[test]
fn build_deploy_request_requires_yaml_first() {
    let err = build_deploy_request(None, vec!["bad".to_string()]).unwrap_err();
    assert_eq!(err, "--yaml-content is required when --json is not provided");
    let err = build_deploy_request(Some("y".to_string()), vec!["bad".to_string()]).unwrap_err();
    assert_eq!(err, "env-var 'bad' must be in KEY=VALUE format");
    let req = build_deploy_request(Some("name: app".to_string()), vec!["ENV=prod".to_string()])
        .unwrap();
    assert_eq!(req.yaml_content, "name: app");
    assert_eq!(req.env_vars.len(), 1);
    assert_eq!(req.env_vars[0].key, "ENV");
    assert_eq!(req.env_vars[0].value, "prod");
}

#[test]
fn build_activate_request_like_deploy() {
    assert_eq!(
        build_activate_request(None, vec![]).unwrap_err(),
        "--yaml-content is required when --json is not provided"
    );
    let req = build_activate_request(Some("a".to_string()), vec!["X=1".to_string()]).unwrap();
    assert_eq!(req.yaml_content, "a");
    assert_eq!(req.env_vars[0].key, "X");
}

#[test]
fn deploy_rows_first_line_carries_success() {
    let resp = DeployResponse {
        success: true,
        report: vec!["one".to_string(), "two".to_string()],
    };
    let rows = deploy_rows(&resp);
    assert_eq!(rows.len(), 2);
    assert!(rows[0].success);
    assert!(!rows[1].success);
    assert_eq!(rows[0].report, "one");
    assert_eq!(rows[1].report, "two");
}

#[test]
fn deploy_rows_empty_report_gives_one_row() {
    let resp = DeployResponse { success: true, report: vec![] };
    let rows = deploy_rows(&resp);
    assert_eq!(rows.len(), 1);
    assert!(rows[0].success);
    assert_eq!(rows[0].report, "");
}

#[test]
fn deploy_table_renders_header_and_cells() {
    let resp = DeployResponse { success: true, report: vec!["all good".to_string()] };
    let table = deploy_table(&deploy_rows(&resp));
    assert!(table.contains("Success"));
    assert!(table.contains("Report"));
    assert!(table.contains("true"));
    assert!(table.contains("all good"));
    assert!(table.starts_with('+'));
    assert!(table.contains("| Success | Report   |"));
    assert!(table.contains("| true    | all good |"));
    assert_eq!(table.lines().count(), 5);
}

#[test]
fn activate_rows_and_table() {
    let resp = ActivateApplicationResponse {
        success: true,
        application_id: "app-1".to_string(),
        report: vec!["a".to_string(), "b".to_string()],
    };
    let rows = activate_rows(&resp);
    assert_eq!(rows.len(), 2);
    assert_eq!(rows[0].application_id, "app-1");
    assert_eq!(rows[1].application_id, "");
    assert!(rows[0].success && !rows[1].success);
    let table = activate_table(&rows);
    assert!(table.contains("Application ID"));
    assert!(table.starts_with('+'));

    let empty = ActivateApplicationResponse {
        success: false,
        application_id: "x".to_string(),
        report: vec![],
    };
    let rows = activate_rows(&empty);
    assert_eq!(rows.len(), 1);
    assert_eq!(rows[0].application_id, "x");
    assert_eq!(rows[0].report, "");
    assert!(!rows[0].success);
}

#[test]
fn list_rows_and_table() {
    let resp = ListActiveApplicationsResponse {
        applications: vec![ActiveApplication {
            application_id: "id-7".to_string(),
            app_name: "demo".to_string(),
        }],
    };
    let rows = list_rows(&resp);
    assert_eq!(rows.len(), 1);
    assert_eq!(rows[0].application_id, "id-7");
    assert_eq!(rows[0].app_name, "demo");
    let table = list_table(&rows);
    assert!(table.contains("Application"));
    assert!(table.contains("demo"));
}

#[test]
fn terminate_application_request_rules() {
    assert_eq!(
        build_terminate_application_request(None, Some("r".to_string())).unwrap_err(),
        "--application-id is required when --json is not provided"
    );
    let req = build_terminate_application_request(Some("app-123".to_string()), None).unwrap();
    assert_eq!(req.application_id, "app-123");
    assert_eq!(req.reason, "");
    let req = build_terminate_application_request(
        Some("app-123".to_string()),
        Some("maintenance window".to_string()),
    )
    .unwrap();
    assert_eq!(req.reason, "maintenance window");
}

#[test]
fn terminate_request_and_rows() {
    assert_eq!(build_terminate_request(None).reason, "");
    assert_eq!(build_terminate_request(Some("bye".to_string())).reason, "bye");
    let resp = TerminateResponse { success: true, message: "Termination accepted".to_string() };
    let rows = terminate_rows(&resp);
    assert_eq!(rows.len(), 1);
    assert!(rows[0].success);
    assert_eq!(rows[0].message, "Termination accepted");
    let table = terminate_table(&rows);
    assert!(table.contains("Termination accepted"));
    assert!(table.contains("Message"));
}

#[test]
fn info_rows_join_services_by_line() {
    let resp = InfoResponse {
        app_name: "roe".to_string(),
        listening_addresses: vec![ListeningAddress {
            address: "[::1]:50051".to_string(),
            services: vec!["a.A".to_string(), "b.B".to_string()],
        }],
    };
    let rows = info_rows(&resp);
    assert_eq!(rows.len(), 1);
    assert_eq!(rows[0].address, "[::1]:50051");
    assert_eq!(rows[0].services, "a.A, b.B");
    assert_eq!(info_title(&resp), "Application: roe");
    let table = info_table(&rows);
    assert!(table.contains("Address"));
    assert!(table.contains("| [::1]:50051 | a.A, b.B |"));
    assert!(table.starts_with("+-"));
}

#[test]
fn static_peer_only_when_given() {
    assert_eq!(static_peer(""), None);
    assert_eq!(static_peer("127.0.0.1:7411"), Some("127.0.0.1:7411".to_string()));
}

#[test]
fn output_format_defaults_to_table() {
    assert_eq!(OutputFormat::default(), OutputFormat::Table);
}
