use dirac::adapter::{ChallengeValue, FieldValue, Fields};
use dirac::checks::{CheckSuite, Kwargs};
use dirac::engine::{run, CheckSuiteResult, PropertyError};
use dirac::modules::{Module, ModuleInstance, ModuleRegistry, ProtocolKind};
use dirac::protocols::Protocol;
use dirac::protocols::{
    HttpResponse, TcpConnect, TcpConnectResponse, TcpHttp, TcpHttpTextResponse, TcpHttps,
    TcpHttpsTextResponse, TcpRaw, TcpRawResponse, TcpText, TcpTextResponse, Transport,
    TransportError, UdpText, UdpTextResponse,
};
use dirac::summary::{create_summary, summary_supported};

#[derive(Clone)]
enum Chal {
    Nothing,
    Text(String),
    Bytes(Vec<u8>),
}

#[derive(Clone)]
enum Expect {
    Always(bool),
    TextField { name: String, value: String },
    BytesField { name: String, value: Vec<u8> },
    Code(u16),
}

#[derive(Clone)]
struct TestModule {
    kind: ProtocolKind,
    chal: Chal,
    expect: Expect,
}

impl ModuleInstance for TestModule {
    fn challenge(&self) -> Option<ChallengeValue> {
        match &self.chal {
            Chal::Nothing => None,
            Chal::Text(s) => Some(ChallengeValue::Text(s.clone())),
            Chal::Bytes(b) => Some(ChallengeValue::Bytes(b.clone())),
        }
    }

    fn check_response(&self, fields: &Fields) -> bool {
        match &self.expect {
            Expect::Always(v) => *v,
            Expect::TextField { name, value } => match fields.get(name) {
                Some(FieldValue::Text(s)) => s == value,
                _ => false,
            },
            Expect::BytesField { name, value } => match fields.get(name) {
                Some(FieldValue::Bytes(b)) => b == value,
                _ => false,
            },
            Expect::Code(c) => match fields.get("response_code") {
                Some(FieldValue::Number(n)) => n == c,
                _ => false,
            },
        }
    }
}

impl Module for TestModule {
    type Instance = TestModule;

    fn protocol(&self) -> ProtocolKind {
        self.kind
    }

    fn check_args(&self, params: &Kwargs) -> bool {
        params.contains_key("port")
    }

    fn instantiate(&self, _params: &Kwargs) -> TestModule {
        self.clone()
    }
}

struct TestRegistry {
    entries: Vec<(String, TestModule)>,
}

impl ModuleRegistry for TestRegistry {
    type M = TestModule;

    fn resolve<'a>(&'a self, name: &str) -> Option<&'a TestModule> {
        self.entries.iter().find(|e| e.0 == name).map(|e| &e.1)
    }
}

struct TestTransport {
    connect_ok: bool,
    text_reply: String,
    udp_reply: String,
    http_code: u16,
    expected_path: Option<String>,
}

impl TestTransport {
    fn quiet() -> TestTransport {
        TestTransport {
            connect_ok: true,
            text_reply: String::new(),
            udp_reply: String::new(),
            http_code: 200,
            expected_path: None,
        }
    }
}

impl Transport for TestTransport {
    fn exchange_connect(&mut self, _c: &TcpConnect) -> Result<TcpConnectResponse, TransportError> {
        if self.connect_ok {
            Ok(TcpConnectResponse(()))
        } else {
            Err(TransportError { message: "connection refused".to_string() })
        }
    }

    fn exchange_raw(&mut self, c: &TcpRaw) -> Result<TcpRawResponse, TransportError> {
        // An echo service, read through the fixed 1024-byte buffer.
        let mut bytes = match &c.0.data {
            Some(d) => d.clone(),
            None => Vec::new(),
        };
        bytes.truncate(1024);
        Ok(TcpRawResponse(bytes))
    }

    fn exchange_text(&mut self, _c: &TcpText) -> Result<TcpTextResponse, TransportError> {
        Ok(TcpTextResponse(self.text_reply.clone()))
    }

    fn exchange_udp_text(&mut self, _c: &UdpText) -> Result<UdpTextResponse, TransportError> {
        Ok(UdpTextResponse(self.udp_reply.clone()))
    }

    fn exchange_http(&mut self, c: &TcpHttp) -> Result<TcpHttpTextResponse, TransportError> {
        if let Some(expected) = &self.expected_path {
            assert_eq!(c.request_path(), Some(expected.clone()));
        }
        Ok(TcpHttpTextResponse(HttpResponse::from_code(self.http_code)))
    }

    fn exchange_https(&mut self, c: &TcpHttps) -> Result<TcpHttpsTextResponse, TransportError> {
        if let Some(expected) = &self.expected_path {
            assert_eq!(c.request_path(), Some(expected.clone()));
        }
        Ok(TcpHttpsTextResponse(HttpResponse::from_code(self.http_code)))
    }
}

fn suite_of(yaml: &str) -> CheckSuite {
    let suite = CheckSuite::read_from_string(yaml).unwrap();
    assert!(suite.is_well_formed());
    suite
}

fn one_module_suite(module: &str) -> CheckSuite {
    let yaml = format!(
        r##"
- inventory:
    g:
      - one.example
- hosts: g
  properties:
    - name: The property
      {}:
        port: 7
"##,
        module
    );
    suite_of(&yaml)
}

fn registry_with(name: &str, module: TestModule) -> TestRegistry {
    TestRegistry { entries: vec![(name.to_string(), module)] }
}

fn sole_outcome(r: &CheckSuiteResult) -> Result<(), PropertyError> {
    assert_eq!(r.results.len(), 1);
    assert_eq!(r.results[0].results.len(), 1);
    r.results[0].results[0].result
}

#[test]
fn run_yields_one_result_per_property_host_pair() {
    let suite = suite_of(
        r##"
- inventory:
    pair:
      - one.example
      - two.example
    solo:
      - three.example
- hosts: pair
  properties:
    - name: A
      connect_tcp:
        port: 1
- hosts: solo
  properties:
    - name: B
      connect_tcp:
        port: 2
    - name: C
      connect_tcp:
        port: 3
"##,
    );
    let registry = registry_with(
        "connect_tcp",
        TestModule { kind: ProtocolKind::ConnectTcp, chal: Chal::Nothing, expect: Expect::Always(true) },
    );
    let mut transport = TestTransport::quiet();
    let result = run(&suite, &registry, &mut transport);

    assert_eq!(result.results.len(), 2);
    // First check: one property on two hosts, inventory order.
    assert_eq!(result.results[0].results.len(), 2);
    assert_eq!(result.results[0].results[0].host, "one.example".to_string());
    assert_eq!(result.results[0].results[1].host, "two.example".to_string());
    assert_eq!(result.results[0].results[0].property.name, "A".to_string());
    // Second check: two properties on one host, property-major order.
    assert_eq!(result.results[1].results.len(), 2);
    assert_eq!(result.results[1].results[0].property.name, "B".to_string());
    assert_eq!(result.results[1].results[1].property.name, "C".to_string());
    assert_eq!(result.results[1].results[0].host, "three.example".to_string());
}

#[test]
fn connect_succeeds_on_an_open_port_and_fails_on_a_closed_one() {
    let suite = one_module_suite("connect_tcp");
    let registry = registry_with(
        "connect_tcp",
        TestModule { kind: ProtocolKind::ConnectTcp, chal: Chal::Nothing, expect: Expect::Always(true) },
    );

    let mut open_port = TestTransport::quiet();
    let result = run(&suite, &registry, &mut open_port);
    assert_eq!(sole_outcome(&result), Ok(()));

    let mut closed_port = TestTransport { connect_ok: false, ..TestTransport::quiet() };
    let result = run(&suite, &registry, &mut closed_port);
    assert_eq!(sole_outcome(&result), Err(PropertyError::FailedExecution));
}

#[test]
fn raw_echo_returns_the_sent_bytes() {
    let suite = one_module_suite("raw_echo");
    let payload = vec![0u8, 1, 2, 3, 254, 255];
    let registry = registry_with(
        "raw_echo",
        TestModule {
            kind: ProtocolKind::RawTcp,
            chal: Chal::Bytes(payload.clone()),
            expect: Expect::BytesField { name: "response".to_string(), value: payload },
        },
    );
    let mut transport = TestTransport::quiet();
    let result = run(&suite, &registry, &mut transport);
    assert_eq!(sole_outcome(&result), Ok(()));
}

#[test]
fn raw_echo_is_truncated_to_the_read_buffer() {
    let suite = one_module_suite("raw_echo");
    let payload = vec![7u8; 2000];
    let registry = registry_with(
        "raw_echo",
        TestModule {
            kind: ProtocolKind::RawTcp,
            chal: Chal::Bytes(payload.clone()),
            expect: Expect::BytesField { name: "response".to_string(), value: vec![7u8; 1024] },
        },
    );
    let mut transport = TestTransport::quiet();
    let result = run(&suite, &registry, &mut transport);
    assert_eq!(sole_outcome(&result), Ok(()));
}

#[test]
fn text_ping_pong_exposes_the_response_field() {
    let suite = one_module_suite("text_ping");
    let registry = registry_with(
        "text_ping",
        TestModule {
            kind: ProtocolKind::TextTcp,
            chal: Chal::Text("PING".to_string()),
            expect: Expect::TextField { name: "response".to_string(), value: "PONG".to_string() },
        },
    );
    let mut transport = TestTransport { text_reply: "PONG".to_string(), ..TestTransport::quiet() };
    let result = run(&suite, &registry, &mut transport);
    assert_eq!(sole_outcome(&result), Ok(()));

    let mut wrong = TestTransport { text_reply: "NOPE".to_string(), ..TestTransport::quiet() };
    let result = run(&suite, &registry, &mut wrong);
    assert_eq!(sole_outcome(&result), Err(PropertyError::FailedResponseCheck));
}

#[test]
fn two_sequential_udp_exchanges_both_succeed() {
    let suite = suite_of(
        r##"
- inventory:
    pair:
      - one.example
      - two.example
- hosts: pair
  properties:
    - name: UDP ping
      udp_ping:
        port: 9
"##,
    );
    let registry = registry_with(
        "udp_ping",
        TestModule {
            kind: ProtocolKind::TextUdp,
            chal: Chal::Text("ping".to_string()),
            expect: Expect::TextField { name: "response".to_string(), value: "pong".to_string() },
        },
    );
    let mut transport = TestTransport { udp_reply: "pong".to_string(), ..TestTransport::quiet() };
    let result = run(&suite, &registry, &mut transport);
    assert_eq!(result.results[0].results.len(), 2);
    assert_eq!(result.results[0].results[0].result, Ok(()));
    assert_eq!(result.results[0].results[1].result, Ok(()));
}

#[test]
fn http_health_check_reads_the_status_code() {
    let suite = one_module_suite("http_health");
    let any_2xx = TestModule {
        kind: ProtocolKind::HttpTcp,
        chal: Chal::Text("GET /health".to_string()),
        expect: Expect::Code(200),
    };
    let registry = registry_with("http_health", any_2xx.clone());
    let mut transport = TestTransport {
        http_code: 200,
        expected_path: Some("/health".to_string()),
        ..TestTransport::quiet()
    };
    let result = run(&suite, &registry, &mut transport);
    assert_eq!(sole_outcome(&result), Ok(()));

    // A 404 comes back fine at the protocol layer; the module's verdict
    // turns it into a failed response check.
    let mut missing = TestTransport {
        http_code: 404,
        expected_path: Some("/health".to_string()),
        ..TestTransport::quiet()
    };
    let result = run(&suite, &registry, &mut missing);
    assert_eq!(sole_outcome(&result), Err(PropertyError::FailedResponseCheck));
}

#[test]
fn https_uses_the_same_challenge_shape() {
    let suite = one_module_suite("https_health");
    let registry = registry_with(
        "https_health",
        TestModule {
            kind: ProtocolKind::HttpsTcp,
            chal: Chal::Text("GET /status".to_string()),
            expect: Expect::Code(204),
        },
    );
    let mut transport = TestTransport {
        http_code: 204,
        expected_path: Some("/status".to_string()),
        ..TestTransport::quiet()
    };
    let result = run(&suite, &registry, &mut transport);
    assert_eq!(sole_outcome(&result), Ok(()));
}

#[test]
fn a_misfitting_challenge_is_the_modules_own_fault() {
    let suite = one_module_suite("bad_module");
    let registry = registry_with(
        "bad_module",
        TestModule {
            kind: ProtocolKind::TextTcp,
            chal: Chal::Bytes(vec![1, 2, 3]),
            expect: Expect::Always(true),
        },
    );
    let mut transport = TestTransport::quiet();
    let result = run(&suite, &registry, &mut transport);
    assert_eq!(sole_outcome(&result), Err(PropertyError::Unclassified));
}

#[test]
fn an_unresolved_module_fails_the_property() {
    let suite = one_module_suite("nosuch");
    let registry = registry_with(
        "other",
        TestModule { kind: ProtocolKind::ConnectTcp, chal: Chal::Nothing, expect: Expect::Always(true) },
    );
    let mut transport = TestTransport::quiet();
    let result = run(&suite, &registry, &mut transport);
    assert_eq!(sole_outcome(&result), Err(PropertyError::FailedExecution));
}

#[test]
fn rerunning_a_suite_gives_a_structurally_identical_tree() {
    let suite = suite_of(
        r##"
- inventory:
    pair:
      - one.example
      - two.example
- hosts: pair
  properties:
    - name: Ping
      text_ping:
        port: 7
    - name: Reach
      connect_tcp:
        port: 8
"##,
    );
    let registry = TestRegistry {
        entries: vec![
            (
                "text_ping".to_string(),
                TestModule {
                    kind: ProtocolKind::TextTcp,
                    chal: Chal::Text("PING".to_string()),
                    expect: Expect::TextField {
                        name: "response".to_string(),
                        value: "PONG".to_string(),
                    },
                },
            ),
            (
                "connect_tcp".to_string(),
                TestModule {
                    kind: ProtocolKind::ConnectTcp,
                    chal: Chal::Nothing,
                    expect: Expect::Always(true),
                },
            ),
        ],
    };
    let mut transport = TestTransport { text_reply: "PONG".to_string(), ..TestTransport::quiet() };
    let first = run(&suite, &registry, &mut transport);
    let second = run(&suite, &registry, &mut transport);

    assert_eq!(first.results.len(), second.results.len());
    for (a, b) in first.results.iter().zip(second.results.iter()) {
        assert_eq!(a.check.inventory_name, b.check.inventory_name);
        assert_eq!(a.results.len(), b.results.len());
        for (x, y) in a.results.iter().zip(b.results.iter()) {
            assert_eq!(x.host, y.host);
            assert_eq!(x.property.name, y.property.name);
            assert_eq!(x.result, y.result);
        }
    }
}

#[test]
fn summary_tallies_successes_and_failures_per_host() {
    let suite = suite_of(
        r##"
- inventory:
    pair:
      - one.example
      - two.example
- hosts: pair
  properties:
    - name: Up
      connect_tcp:
        port: 1
    - name: Ping
      text_ping:
        port: 2
"##,
    );
    let registry = TestRegistry {
        entries: vec![
            (
                "connect_tcp".to_string(),
                TestModule {
                    kind: ProtocolKind::ConnectTcp,
                    chal: Chal::Nothing,
                    expect: Expect::Always(true),
                },
            ),
            (
                "text_ping".to_string(),
                TestModule {
                    kind: ProtocolKind::TextTcp,
                    chal: Chal::Text("PING".to_string()),
                    expect: Expect::TextField {
                        name: "response".to_string(),
                        value: "PONG".to_string(),
                    },
                },
            ),
        ],
    };
    // The text service answers wrongly, so Ping fails on both hosts.
    let mut transport = TestTransport { text_reply: "EHLO".to_string(), ..TestTransport::quiet() };
    let result = run(&suite, &registry, &mut transport);
    assert!(summary_supported(&result));
    let summary = create_summary(&result);
    assert_eq!(summary.len(), 2);
    assert_eq!(summary.get("one.example").unwrap(), &(1, 1));
    assert_eq!(summary.get("two.example").unwrap(), &(1, 1));
}

#[test]
fn text_response_decodes_bytes_lossily() {
    let pong = TcpTextResponse::from_bytes(&vec![80, 79, 78, 71]);
    assert_eq!(pong.0, "PONG".to_string());
    let broken = TcpTextResponse::from_bytes(&vec![0xFF, 0x50]);
    assert_eq!(broken.0, "\u{FFFD}P".to_string());
    let empty = UdpTextResponse::from_bytes(&Vec::new());
    assert_eq!(empty.0, String::new());
}

#[test]
fn response_field_mappings_have_the_documented_shape() {
    let connect_fields = TcpConnectResponse(()).to_dict();
    assert_eq!(connect_fields.len(), 0);

    let raw_fields = TcpRawResponse(vec![1, 2]).to_dict();
    assert_eq!(raw_fields.len(), 1);
    assert!(matches!(raw_fields.get("response"), Some(FieldValue::Bytes(b)) if b == &vec![1u8, 2u8]));

    let text_fields = TcpTextResponse("PONG".to_string()).to_dict();
    assert!(
        matches!(text_fields.get("response"), Some(FieldValue::Text(s)) if s == &"PONG".to_string())
    );

    let http_fields = TcpHttpTextResponse(HttpResponse::from_code(200)).to_dict();
    assert_eq!(http_fields.len(), 3);
    assert!(matches!(http_fields.get("response_code"), Some(FieldValue::Number(200))));
    assert!(matches!(http_fields.get("headers"), Some(FieldValue::Null)));
    assert!(
        matches!(http_fields.get("body"), Some(FieldValue::Text(s)) if s == &"<not yet implemented>".to_string())
    );
}

#[test]
fn text_adapter_round_trip_preserves_content() {
    // Toward the wire: a text challenge passes through unchanged.
    let data = TcpText::to_data(Some(ChallengeValue::Text("PING".to_string())));
    assert_eq!(data, Ok(Some("PING".to_string())));
    // Back from the wire: the response text lands under `response`.
    let response = TcpTextResponse::from_bytes(&b"PONG".to_vec());
    let fields = response.to_dict();
    assert!(
        matches!(fields.get("response"), Some(FieldValue::Text(s)) if s == &"PONG".to_string())
    );
}

#[test]
fn payload_bytes_follow_the_attached_challenge() {
    let mut raw = TcpRaw::new("h.example", 9);
    assert_eq!(raw.payload_bytes(), Vec::<u8>::new());
    raw.set_data(vec![1, 2, 3]);
    assert_eq!(raw.payload_bytes(), vec![1, 2, 3]);

    let mut text = TcpText::new("h.example", 9);
    assert_eq!(text.payload_bytes(), Vec::<u8>::new());
    text.set_data("hi".to_string());
    assert_eq!(text.payload_bytes(), b"hi".to_vec());

    let mut udp = UdpText::new("h.example", 9);
    udp.set_data("\u{00e9}".to_string());
    assert_eq!(udp.payload_bytes(), vec![0xc3, 0xa9]);
}

#[test]
fn http_response_from_code_keeps_the_documented_gaps() {
    let r = HttpResponse::from_code(503);
    assert_eq!(r.response_code, 503);
    assert_eq!(r.headers.len(), 0);
    assert_eq!(r.body, "<not yet implemented>".to_string());
}
