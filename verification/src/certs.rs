//! Planning of TLS certificate creation and rotation for the node and its
//! database peers.
//!
//! Deciding which keys and certificates to (re)create, and with which
//! openssl invocations, is pure logic and is verified here: a planner maps
//! an observation of the certificate directory to the exact sequence of
//! steps owed.  Running openssl, probing the filesystem and writing files
//! are left to the caller, who reports observations back.

use crate::text::{concat_str, dec_str, joined, path_join, u64_to_string};
use vstd::prelude::*;
use vstd::string::StringExecFns;

verus! {

/// When a certificate is renewed rather than kept: once fewer than
/// `ca_renew_seconds` (resp. `server_renew_seconds`) of validity remain.
pub struct RenewPolicy {
    pub ca_renew_seconds: u64,
    pub server_renew_seconds: u64,
}

impl Default for RenewPolicy {
    /// Renew the CA with a year left, servers with half a year left.
    fn default() -> (r: Self)
        ensures
            r.ca_renew_seconds == 31536000,
            r.server_renew_seconds == 15768000,
    {
        Self { ca_renew_seconds: 31536000, server_renew_seconds: 15768000 }
    }
}

/// One step of a certificate plan.
pub enum CertStep {
    /// Run openssl with these arguments.
    Openssl(Vec<String>),
    /// Concatenate two certificate files into a destination, forming a
    /// combined chain of old and new CA certificates.
    CombineFiles(String, String, String),
    /// Rename a file over another.
    Rename(String, String),
    /// Write the request-extensions configuration at this path.
    WriteCertConf(String),
}

/// Mathematical view of a `CertStep`.
pub enum CertStepV {
    Openssl(Seq<Seq<char>>),
    CombineFiles(Seq<char>, Seq<char>, Seq<char>),
    Rename(Seq<char>, Seq<char>),
    WriteCertConf(Seq<char>),
}

/// The views of a sequence of argument strings.
pub open spec fn views_of(s: Seq<String>) -> Seq<Seq<char>> {
    s.map_values(|x: String| x@)
}

impl View for CertStep {
    type V = CertStepV;

    open spec fn view(&self) -> CertStepV {
        match self {
            CertStep::Openssl(args) => CertStepV::Openssl(views_of(args@)),
            CertStep::CombineFiles(a, b, c) => CertStepV::CombineFiles(a@, b@, c@),
            CertStep::Rename(a, b) => CertStepV::Rename(a@, b@),
            CertStep::WriteCertConf(p) => CertStepV::WriteCertConf(p@),
        }
    }
}

/// The views of a sequence of steps.
pub open spec fn steps_view(s: Seq<CertStep>) -> Seq<CertStepV> {
    s.map_values(|x: CertStep| x@)
}

/// What the caller observed about one certificate file.
pub struct CertObservation {
    /// The file exists.
    pub exists: bool,
    /// It still has more validity left than the renewal window asks for.
    pub valid: bool,
}

/// What the caller observed about one host's key and certificate.
pub struct HostObservation {
    pub name: String,
    pub key_exists: bool,
    pub cert: CertObservation,
}

/// Mathematical view of a `HostObservation`.
pub struct HostObservationV {
    pub name: Seq<char>,
    pub key_exists: bool,
    pub cert_exists: bool,
    pub cert_valid: bool,
}

impl View for HostObservation {
    type V = HostObservationV;

    open spec fn view(&self) -> HostObservationV {
        HostObservationV {
            name: self.name@,
            key_exists: self.key_exists,
            cert_exists: self.cert.exists,
            cert_valid: self.cert.valid,
        }
    }
}

/// Generate a fresh elliptic-curve TLS key at `key`.
pub open spec fn tls_key_command(key: Seq<char>) -> Seq<Seq<char>> {
    seq!["ecparam"@, "-genkey"@, "-name"@, "secp384r1"@, "-out"@, key]
}

/// Probe whether `cert` is still valid `seconds` from now.
pub open spec fn checkend_command(cert: Seq<char>, seconds: u64) -> Seq<Seq<char>> {
    seq!["x509"@, "-in"@, cert, "-checkend"@, dec_str(seconds as nat), "-noout"@]
}

/// Self-sign a fresh ten-year CA certificate.
pub open spec fn ca_create_command(ca_key: Seq<char>, ca_cert: Seq<char>) -> Seq<Seq<char>> {
    seq![
        "req"@,
        "-new"@,
        "-x509"@,
        "-days"@,
        "3650"@,
        "-key"@,
        ca_key,
        "-out"@,
        ca_cert,
        "-subj"@,
        "/CN=Kld CA"@,
    ]
}

/// Turn the old CA certificate back into a signing request.
pub open spec fn ca_to_req_command(
    ca_cert: Seq<char>,
    ca_key: Seq<char>,
    ca_csr: Seq<char>,
) -> Seq<Seq<char>> {
    seq!["x509"@, "-x509toreq"@, "-in"@, ca_cert, "-signkey"@, ca_key, "-out"@, ca_csr]
}

/// Sign the renewal request into a one-year CA certificate.
pub open spec fn ca_sign_command(
    ca_csr: Seq<char>,
    ca_key: Seq<char>,
    new_ca_cert: Seq<char>,
) -> Seq<Seq<char>> {
    seq!["x509"@, "-req"@, "-days"@, "365"@, "-in"@, ca_csr, "-signkey"@, ca_key, "-out"@, new_ca_cert]
}

/// Request a localhost server certificate for a host key.
pub open spec fn host_req_command(
    key: Seq<char>,
    cert: Seq<char>,
    conf: Seq<char>,
) -> Seq<Seq<char>> {
    seq![
        "req"@,
        "-new"@,
        "-key"@,
        key,
        "-out"@,
        cert,
        "-config"@,
        conf,
        "-subj"@,
        "/CN=localhost"@,
    ]
}

/// Sign a host's request with the CA into a one-year certificate.
pub open spec fn host_sign_command(
    cert: Seq<char>,
    ca_cert: Seq<char>,
    ca_key: Seq<char>,
    conf: Seq<char>,
) -> Seq<Seq<char>> {
    seq![
        "x509"@,
        "-req"@,
        "-days"@,
        "365"@,
        "-in"@,
        cert,
        "-CA"@,
        ca_cert,
        "-CAkey"@,
        ca_key,
        "-set_serial"@,
        "01"@,
        "-out"@,
        cert,
        "-extensions"@,
        "v3_req"@,
        "-extfile"@,
        conf,
    ]
}

/// The steps owed for the CA certificate: create it when absent, renew and
/// chain it when it is within the renewal window, otherwise leave it alone.
pub open spec fn ca_cert_plan(dir: Seq<char>, exists: bool, valid: bool) -> Seq<CertStepV> {
    let ca_key = joined(dir, "ca.key"@);
    let ca_cert = joined(dir, "ca.pem"@);
    let ca_csr = joined(dir, "ca.csr"@);
    let new_ca = joined(dir, "new-ca.pem"@);
    if !exists {
        seq![CertStepV::Openssl(ca_create_command(ca_key, ca_cert))]
    } else if !valid {
        seq![
            CertStepV::Openssl(ca_to_req_command(ca_cert, ca_key, ca_csr)),
            CertStepV::Openssl(ca_sign_command(ca_csr, ca_key, new_ca)),
            CertStepV::CombineFiles(ca_cert, new_ca, new_ca),
            CertStepV::Rename(new_ca, ca_cert),
        ]
    } else {
        Seq::empty()
    }
}

/// The steps owed for one host: a fresh key when absent, and a fresh
/// certificate unless a valid one exists.
pub open spec fn host_cert_plan(dir: Seq<char>, host: HostObservationV) -> Seq<CertStepV> {
    let key = joined(dir, host.name + ".key"@);
    let cert = joined(dir, host.name + ".pem"@);
    let conf = joined(dir, "cert.conf"@);
    let ca_key = joined(dir, "ca.key"@);
    let ca_cert = joined(dir, "ca.pem"@);
    let key_steps: Seq<CertStepV> = if host.key_exists {
        Seq::empty()
    } else {
        seq![CertStepV::Openssl(tls_key_command(key))]
    };
    let cert_steps: Seq<CertStepV> = if host.cert_exists && host.cert_valid {
        Seq::empty()
    } else {
        seq![
            CertStepV::WriteCertConf(conf),
            CertStepV::Openssl(host_req_command(key, cert, conf)),
            CertStepV::Openssl(host_sign_command(cert, ca_cert, ca_key, conf)),
        ]
    };
    key_steps + cert_steps
}

/// The steps owed for a sequence of hosts, in order.
pub open spec fn hosts_plan(dir: Seq<char>, hosts: Seq<HostObservationV>) -> Seq<CertStepV>
    decreases hosts.len(),
{
    if hosts.len() == 0 {
        Seq::empty()
    } else {
        hosts_plan(dir, hosts.drop_last()) + host_cert_plan(dir, hosts.last())
    }
}

/// The full plan: the CA key when absent, then the CA certificate, then
/// every host.
pub open spec fn lightning_certs_plan(
    dir: Seq<char>,
    ca_key_exists: bool,
    ca_cert_exists: bool,
    ca_cert_valid: bool,
    hosts: Seq<HostObservationV>,
) -> Seq<CertStepV> {
    let key_steps: Seq<CertStepV> = if ca_key_exists {
        Seq::empty()
    } else {
        seq![CertStepV::Openssl(tls_key_command(joined(dir, "ca.key"@)))]
    };
    key_steps + ca_cert_plan(dir, ca_cert_exists, ca_cert_valid) + hosts_plan(dir, hosts)
}

/// The openssl invocation that creates a TLS key at `key_path`.
pub fn create_tls_key_command(key_path: &str) -> (r: Vec<String>)
    ensures
        views_of(r@) == tls_key_command(key_path@),
{
    let mut v: Vec<String> = Vec::new();
    v.push("ecparam".to_owned());
    v.push("-genkey".to_owned());
    v.push("-name".to_owned());
    v.push("secp384r1".to_owned());
    v.push("-out".to_owned());
    v.push(key_path.to_owned());
    proof {
        assert(views_of(v@) =~= tls_key_command(key_path@));
    }
    v
}

/// The openssl invocation that probes whether `cert_path` is still valid
/// `seconds` from now; its exit status is the caller's observation.
pub fn check_validity_command(cert_path: &str, seconds: u64) -> (r: Vec<String>)
    ensures
        views_of(r@) == checkend_command(cert_path@, seconds),
{
    let mut v: Vec<String> = Vec::new();
    v.push("x509".to_owned());
    v.push("-in".to_owned());
    v.push(cert_path.to_owned());
    v.push("-checkend".to_owned());
    v.push(u64_to_string(seconds));
    v.push("-noout".to_owned());
    proof {
        assert(views_of(v@) =~= checkend_command(cert_path@, seconds));
    }
    v
}

/// The request-extensions configuration written beside host certificates:
/// a non-CA certificate for localhost with the usual key usages.
pub fn cert_conf_contents() -> (r: String)
    ensures
        r@ == "[req]\nreq_extensions = v3_req\ndistinguished_name = req_distinguished_name\n[req_distinguished_name]\n[ v3_req ]\nbasicConstraints = CA:FALSE\nkeyUsage = nonRepudiation, digitalSignature, keyEncipherment\nsubjectAltName = @alt_names\n[alt_names]\nDNS.1 = localhost\nIP.1 = 127.0.0.1\nIP.2 = ::1\n"@,
{
    "[req]\nreq_extensions = v3_req\ndistinguished_name = req_distinguished_name\n[req_distinguished_name]\n[ v3_req ]\nbasicConstraints = CA:FALSE\nkeyUsage = nonRepudiation, digitalSignature, keyEncipherment\nsubjectAltName = @alt_names\n[alt_names]\nDNS.1 = localhost\nIP.1 = 127.0.0.1\nIP.2 = ::1\n".to_owned()
}

/// Plan the CA certificate's steps from what the caller observed.
pub fn plan_ca_certificate(cert_dir: &str, cert_exists: bool, cert_valid: bool) -> (r: Vec<
    CertStep,
>)
    ensures
        steps_view(r@) == ca_cert_plan(cert_dir@, cert_exists, cert_valid),
{
    let ca_key = path_join(cert_dir, "ca.key");
    let ca_cert = path_join(cert_dir, "ca.pem");
    let mut r: Vec<CertStep> = Vec::new();
    if !cert_exists {
        let mut args: Vec<String> = Vec::new();
        args.push("req".to_owned());
        args.push("-new".to_owned());
        args.push("-x509".to_owned());
        args.push("-days".to_owned());
        args.push("3650".to_owned());
        args.push("-key".to_owned());
        args.push(ca_key);
        args.push("-out".to_owned());
        args.push(ca_cert);
        args.push("-subj".to_owned());
        args.push("/CN=Kld CA".to_owned());
        proof {
            assert(views_of(args@) =~= ca_create_command(
                joined(cert_dir@, "ca.key"@),
                joined(cert_dir@, "ca.pem"@),
            ));
        }
        r.push(CertStep::Openssl(args));
    } else if !cert_valid {
        let ca_csr = path_join(cert_dir, "ca.csr");
        let new_ca = path_join(cert_dir, "new-ca.pem");
        let mut to_req: Vec<String> = Vec::new();
        to_req.push("x509".to_owned());
        to_req.push("-x509toreq".to_owned());
        to_req.push("-in".to_owned());
        to_req.push(ca_cert.clone());
        to_req.push("-signkey".to_owned());
        to_req.push(ca_key.clone());
        to_req.push("-out".to_owned());
        to_req.push(ca_csr.clone());
        proof {
            assert(views_of(to_req@) =~= ca_to_req_command(
                joined(cert_dir@, "ca.pem"@),
                joined(cert_dir@, "ca.key"@),
                joined(cert_dir@, "ca.csr"@),
            ));
        }
        let mut sign: Vec<String> = Vec::new();
        sign.push("x509".to_owned());
        sign.push("-req".to_owned());
        sign.push("-days".to_owned());
        sign.push("365".to_owned());
        sign.push("-in".to_owned());
        sign.push(ca_csr);
        sign.push("-signkey".to_owned());
        sign.push(ca_key);
        sign.push("-out".to_owned());
        sign.push(new_ca.clone());
        proof {
            assert(views_of(sign@) =~= ca_sign_command(
                joined(cert_dir@, "ca.csr"@),
                joined(cert_dir@, "ca.key"@),
                joined(cert_dir@, "new-ca.pem"@),
            ));
        }
        r.push(CertStep::Openssl(to_req));
        r.push(CertStep::Openssl(sign));
        r.push(CertStep::CombineFiles(ca_cert.clone(), new_ca.clone(), new_ca.clone()));
        r.push(CertStep::Rename(new_ca, ca_cert));
    }
    proof {
        assert(steps_view(r@) =~= ca_cert_plan(cert_dir@, cert_exists, cert_valid));
    }
    r
}

/// Plan one host's steps from what the caller observed.
pub fn plan_host_certificate(cert_dir: &str, host: &HostObservation) -> (r: Vec<CertStep>)
    ensures
        steps_view(r@) == host_cert_plan(cert_dir@, host@),
{
    let key_name = concat_str(host.name.as_str(), ".key");
    let cert_name = concat_str(host.name.as_str(), ".pem");
    let key = path_join(cert_dir, key_name.as_str());
    let cert = path_join(cert_dir, cert_name.as_str());
    let conf = path_join(cert_dir, "cert.conf");
    let ca_key = path_join(cert_dir, "ca.key");
    let ca_cert = path_join(cert_dir, "ca.pem");
    let mut r: Vec<CertStep> = Vec::new();
    if !host.key_exists {
        let mut args: Vec<String> = Vec::new();
        args.push("ecparam".to_owned());
        args.push("-genkey".to_owned());
        args.push("-name".to_owned());
        args.push("secp384r1".to_owned());
        args.push("-out".to_owned());
        args.push(key.clone());
        proof {
            assert(views_of(args@) =~= tls_key_command(joined(cert_dir@, host@.name + ".key"@)));
        }
        r.push(CertStep::Openssl(args));
    }
    if !(host.cert.exists && host.cert.valid) {
        let mut req: Vec<String> = Vec::new();
        req.push("req".to_owned());
        req.push("-new".to_owned());
        req.push("-key".to_owned());
        req.push(key);
        req.push("-out".to_owned());
        req.push(cert.clone());
        req.push("-config".to_owned());
        req.push(conf.clone());
        req.push("-subj".to_owned());
        req.push("/CN=localhost".to_owned());
        proof {
            assert(views_of(req@) =~= host_req_command(
                joined(cert_dir@, host@.name + ".key"@),
                joined(cert_dir@, host@.name + ".pem"@),
                joined(cert_dir@, "cert.conf"@),
            ));
        }
        let mut sign: Vec<String> = Vec::new();
        sign.push("x509".to_owned());
        sign.push("-req".to_owned());
        sign.push("-days".to_owned());
        sign.push("365".to_owned());
        sign.push("-in".to_owned());
        sign.push(cert.clone());
        sign.push("-CA".to_owned());
        sign.push(ca_cert);
        sign.push("-CAkey".to_owned());
        sign.push(ca_key);
        sign.push("-set_serial".to_owned());
        sign.push("01".to_owned());
        sign.push("-out".to_owned());
        sign.push(cert);
        sign.push("-extensions".to_owned());
        sign.push("v3_req".to_owned());
        sign.push("-extfile".to_owned());
        sign.push(conf.clone());
        proof {
            assert(views_of(sign@) =~= host_sign_command(
                joined(cert_dir@, host@.name + ".pem"@),
                joined(cert_dir@, "ca.pem"@),
                joined(cert_dir@, "ca.key"@),
                joined(cert_dir@, "cert.conf"@),
            ));
        }
        r.push(CertStep::WriteCertConf(conf));
        r.push(CertStep::Openssl(req));
        r.push(CertStep::Openssl(sign));
    }
    proof {
        assert(steps_view(r@) =~= host_cert_plan(cert_dir@, host@));
    }
    r
}

/// Plan everything the certificate directory is owed: CA key and
/// certificate first, then each host, in the order given.
pub fn plan_lightning_certs(
    cert_dir: &str,
    ca_key_exists: bool,
    ca_cert: &CertObservation,
    hosts: &Vec<HostObservation>,
) -> (r: Vec<CertStep>)
    ensures
        steps_view(r@) == lightning_certs_plan(
            cert_dir@,
            ca_key_exists,
            ca_cert.exists,
            ca_cert.valid,
            hosts@.map_values(|h: HostObservation| h@),
        ),
{
    let mut r: Vec<CertStep> = Vec::new();
    if !ca_key_exists {
        let ca_key = path_join(cert_dir, "ca.key");
        r.push(CertStep::Openssl(create_tls_key_command(ca_key.as_str())));
    }
    let mut ca_steps = plan_ca_certificate(cert_dir, ca_cert.exists, ca_cert.valid);
    let ghost prefix = steps_view(r@) + steps_view(ca_steps@);
    r.append(&mut ca_steps);
    proof {
        assert(steps_view(r@) =~= prefix);
    }
    let n = hosts.len();
    let mut i: usize = 0;
    while i < n
        invariant
            n == hosts@.len(),
            i <= n,
            steps_view(r@) =~= prefix + hosts_plan(
                cert_dir@,
                hosts@.map_values(|h: HostObservation| h@).subrange(0, i as int),
            ),
        decreases n - i,
    {
        let mut steps = plan_host_certificate(cert_dir, &hosts[i]);
        let ghost before = steps_view(r@);
        r.append(&mut steps);
        proof {
            let hv = hosts@.map_values(|h: HostObservation| h@);
            assert(steps_view(r@) =~= before + host_cert_plan(cert_dir@, hv[i as int]));
            assert(hv.subrange(0, i + 1 as int).drop_last() =~= hv.subrange(0, i as int));
            assert(hv.subrange(0, i + 1 as int).last() == hv[i as int]);
        }
        i = i + 1;
    }
    proof {
        let hv = hosts@.map_values(|h: HostObservation| h@);
        assert(hv.subrange(0, hv.len() as int) =~= hv);
        assert(steps_view(r@) =~= lightning_certs_plan(
            cert_dir@,
            ca_key_exists,
            ca_cert.exists,
            ca_cert.valid,
            hv,
        ));
    }
    r
}

} // verus!
