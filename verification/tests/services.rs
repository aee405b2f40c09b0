use roe::commands::deploy::{DeployRequest, EnvVar};
use roe::commands::info::{InfoRequest, ListeningAddress};
use roe::server::{DeployManagerService, ManagedApplicationService, ServiceError};

#[test]
fn test_deploy_success() {
    let service = DeployManagerService::default();

    let request = DeployRequest {
        yaml_content: "name: my-app\nversion: 1.0".to_string(),
        env_vars: vec![
            EnvVar {
                key: "ENV".to_string(),
                value: "production".to_string(),
            },
            EnvVar {
                key: "PORT".to_string(),
                value: "8080".to_string(),
            },
        ],
    };

    let body = service.deploy(request).unwrap();

    assert!(body.success);
    assert!(body.report[0].contains("Deployment successful"));
    assert!(body.report[0].contains("ENV=production"));
    assert!(body.report[0].contains("PORT=8080"));
}

#[test]
fn test_deploy_no_env_vars() {
    let service = DeployManagerService::default();

    let request = DeployRequest {
        yaml_content: "name: my-app".to_string(),
        env_vars: vec![],
    };

    let body = service.deploy(request).unwrap();

    assert!(body.success);
    assert!(body.report[0].contains("Deployment successful"));
}

#[test]
fn test_deploy_empty_yaml_returns_error() {
    let service = DeployManagerService::default();

    let request = DeployRequest {
        yaml_content: "".to_string(),
        env_vars: vec![],
    };

    let result = service.deploy(request);
    assert!(result.is_err());
    assert!(matches!(result.unwrap_err(), ServiceError::InvalidArgument(_)));
}

#[test]
fn test_info_returns_app_name_and_addresses() {
    let service = ManagedApplicationService::new(
        "test-app".to_string(),
        vec![ListeningAddress {
            address: "[::1]:50051".to_string(),
            services: vec!["my.Service".to_string()],
        }],
    );

    let body = service.info(InfoRequest {});

    assert_eq!(body.app_name, "test-app");
    assert_eq!(body.listening_addresses.len(), 1);
    assert_eq!(body.listening_addresses[0].address, "[::1]:50051");
    assert_eq!(body.listening_addresses[0].services, vec!["my.Service"]);
}

#[test]
fn test_info_no_addresses() {
    let service = ManagedApplicationService::new("empty-app".to_string(), vec![]);

    let body = service.info(InfoRequest {});

    assert_eq!(body.app_name, "empty-app");
    assert!(body.listening_addresses.is_empty());
}

#[test]
fn deploy_report_exact_text_with_env_vars() {
    let body = DeployManagerService::default()
        .deploy(DeployRequest {
            yaml_content: "name: my-app\nversion: 1.0".to_string(),
            env_vars: vec![
                EnvVar { key: "ENV".to_string(), value: "production".to_string() },
                EnvVar { key: "PORT".to_string(), value: "8080".to_string() },
            ],
        })
        .unwrap();
    assert_eq!(body.report.len(), 1);
    assert_eq!(
        body.report[0],
        "Deployment successful. YAML content length: 25 bytes. Env vars: [ENV=production, PORT=8080]."
    );
}

#[test]
fn deploy_report_exact_text_without_env_vars() {
    let body = DeployManagerService::default()
        .deploy(DeployRequest { yaml_content: "name: my-app".to_string(), env_vars: vec![] })
        .unwrap();
    assert_eq!(body.report, vec!["Deployment successful. YAML content length: 12 bytes."]);
}

#[test]
fn deploy_report_counts_utf8_bytes() {
    let body = DeployManagerService::default()
        .deploy(DeployRequest { yaml_content: "é€".to_string(), env_vars: vec![] })
        .unwrap();
    assert_eq!(body.report[0], "Deployment successful. YAML content length: 5 bytes.");
}

#[test]
fn deploy_empty_yaml_message() {
    let err = DeployManagerService::default()
        .deploy(DeployRequest {
            yaml_content: String::new(),
            env_vars: vec![EnvVar { key: "A".to_string(), value: "1".to_string() }],
        })
        .unwrap_err();
    match err {
        ServiceError::InvalidArgument(m) => assert_eq!(m, "yaml_content must not be empty"),
    }
}

#[test]
fn deploy_report_env_var_reads_back() {
    // A KEY=VALUE entry of the report parses back to the same variable.
    let body = DeployManagerService::default()
        .deploy(DeployRequest {
            yaml_content: "x".to_string(),
            env_vars: vec![EnvVar { key: "K".to_string(), value: "a=b".to_string() }],
        })
        .unwrap();
    let report = &body.report[0];
    let start = report.find('[').unwrap() + 1;
    let end = report.rfind(']').unwrap();
    let entry = &report[start..end];
    let parsed = roe::commands::deploy::parse_env_var(entry).unwrap();
    assert_eq!(parsed.key, "K");
    assert_eq!(parsed.value, "a=b");
}

#[test]
fn info_read_back_multiple_addresses() {
    let service = ManagedApplicationService::new(
        "roe".to_string(),
        vec![
            ListeningAddress {
                address: "[::1]:50051".to_string(),
                services: vec![
                    "deploy_manager.DeployManager".to_string(),
                    "managed_application.ManagedApplication".to_string(),
                ],
            },
            ListeningAddress { address: "127.0.0.1:1".to_string(), services: vec![] },
        ],
    );
    let body = service.info(InfoRequest {});
    assert_eq!(body.app_name, "roe");
    assert_eq!(body.listening_addresses.len(), 2);
    assert_eq!(body.listening_addresses[0].services.len(), 2);
    assert_eq!(body.listening_addresses[0].services[1], "managed_application.ManagedApplication");
    assert_eq!(body.listening_addresses[1].address, "127.0.0.1:1");
    assert!(body.listening_addresses[1].services.is_empty());
}
