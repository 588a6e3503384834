use kld::certs::{
    cert_conf_contents, check_validity_command, create_tls_key_command, plan_ca_certificate,
    plan_host_certificate, plan_lightning_certs, CertObservation, CertStep, HostObservation,
    RenewPolicy,
};

fn args_of(step: &CertStep) -> Vec<String> {
    match step {
        CertStep::Openssl(args) => args.clone(),
        _ => panic!("expected an openssl step"),
    }
}

#[test]
fn test_renew_policy_default() {
    let policy = RenewPolicy::default();
    assert_eq!(policy.ca_renew_seconds, 31536000);
    assert_eq!(policy.server_renew_seconds, 15768000);
}

#[test]
fn test_create_tls_key_command() {
    let cmd = create_tls_key_command("/tmp/certs/ca.key");
    assert_eq!(
        cmd,
        vec!["ecparam", "-genkey", "-name", "secp384r1", "-out", "/tmp/certs/ca.key"]
    );
}

#[test]
fn test_check_validity_command_renders_seconds() {
    let cmd = check_validity_command("/tmp/certs/ca.pem", 315360001);
    assert_eq!(
        cmd,
        vec!["x509", "-in", "/tmp/certs/ca.pem", "-checkend", "315360001", "-noout"]
    );
    let cmd = check_validity_command("/tmp/certs/kld-00.pem", 31536001);
    assert_eq!(cmd[4], "31536001");
}

#[test]
fn test_plan_ca_certificate_fresh() {
    let plan = plan_ca_certificate("/tmp/certs", false, false);
    assert_eq!(plan.len(), 1);
    let args = args_of(&plan[0]);
    assert_eq!(
        args,
        vec![
            "req",
            "-new",
            "-x509",
            "-days",
            "3650",
            "-key",
            "/tmp/certs/ca.key",
            "-out",
            "/tmp/certs/ca.pem",
            "-subj",
            "/CN=Kld CA",
        ]
    );
}

#[test]
fn test_plan_ca_certificate_renewal_chains_and_renames() {
    let plan = plan_ca_certificate("/tmp/certs", true, false);
    assert_eq!(plan.len(), 4);
    assert_eq!(args_of(&plan[0])[1], "-x509toreq");
    assert_eq!(args_of(&plan[1])[1], "-req");
    match &plan[2] {
        CertStep::CombineFiles(first, second, dest) => {
            assert_eq!(first, "/tmp/certs/ca.pem");
            assert_eq!(second, "/tmp/certs/new-ca.pem");
            assert_eq!(dest, "/tmp/certs/new-ca.pem");
        }
        _ => panic!("expected the combine step"),
    }
    match &plan[3] {
        CertStep::Rename(from, to) => {
            assert_eq!(from, "/tmp/certs/new-ca.pem");
            assert_eq!(to, "/tmp/certs/ca.pem");
        }
        _ => panic!("expected the rename step"),
    }
}

#[test]
fn test_plan_ca_certificate_valid_is_left_alone() {
    let plan = plan_ca_certificate("/tmp/certs", true, true);
    assert!(plan.is_empty());
}

#[test]
fn test_plan_host_certificate() {
    let host = HostObservation {
        name: "kld-00".to_owned(),
        key_exists: false,
        cert: CertObservation { exists: false, valid: false },
    };
    let plan = plan_host_certificate("/tmp/certs", &host);
    assert_eq!(plan.len(), 4);
    assert_eq!(args_of(&plan[0])[5], "/tmp/certs/kld-00.key");
    match &plan[1] {
        CertStep::WriteCertConf(path) => assert_eq!(path, "/tmp/certs/cert.conf"),
        _ => panic!("expected the conf step"),
    }
    let req = args_of(&plan[2]);
    assert_eq!(req[0], "req");
    assert_eq!(req[3], "/tmp/certs/kld-00.key");
    assert_eq!(req[5], "/tmp/certs/kld-00.pem");
    assert_eq!(req[9], "/CN=localhost");
    let sign = args_of(&plan[3]);
    assert_eq!(sign[0], "x509");
    assert_eq!(sign[11], "01");

    let settled = HostObservation {
        name: "kld-00".to_owned(),
        key_exists: true,
        cert: CertObservation { exists: true, valid: true },
    };
    assert!(plan_host_certificate("/tmp/certs", &settled).is_empty());
}

#[test]
fn test_plan_lightning_certs_idempotent_when_settled() {
    let hosts = vec![
        HostObservation {
            name: "kld-00".to_owned(),
            key_exists: true,
            cert: CertObservation { exists: true, valid: true },
        },
        HostObservation {
            name: "db-00".to_owned(),
            key_exists: true,
            cert: CertObservation { exists: true, valid: true },
        },
    ];
    let plan = plan_lightning_certs(
        "/tmp/certs",
        true,
        &CertObservation { exists: true, valid: true },
        &hosts,
    );
    assert!(plan.is_empty());
}

#[test]
fn test_plan_lightning_certs_fresh_directory() {
    let hosts = vec![
        HostObservation {
            name: "kld-00".to_owned(),
            key_exists: false,
            cert: CertObservation { exists: false, valid: false },
        },
        HostObservation {
            name: "db-00".to_owned(),
            key_exists: false,
            cert: CertObservation { exists: false, valid: false },
        },
    ];
    let plan = plan_lightning_certs(
        "/tmp/certs",
        false,
        &CertObservation { exists: false, valid: false },
        &hosts,
    );
    // CA key, CA certificate, then four steps per host.
    assert_eq!(plan.len(), 1 + 1 + 4 + 4);
    assert_eq!(args_of(&plan[0])[5], "/tmp/certs/ca.key");
    assert_eq!(args_of(&plan[1])[0], "req");
    assert_eq!(args_of(&plan[2])[5], "/tmp/certs/kld-00.key");
    assert_eq!(args_of(&plan[6])[5], "/tmp/certs/db-00.key");
}

#[test]
fn test_cert_conf_contents() {
    let conf = cert_conf_contents();
    assert!(conf.contains("[req]"));
    assert!(conf.contains("basicConstraints = CA:FALSE"));
    assert!(conf.contains("DNS.1 = localhost"));
    assert!(conf.contains("IP.2 = ::1"));
}
