//! The execution engine and the result model.
//!
//! `run` walks the (check, property, host) matrix of a suite in declaration
//! order, evaluates every pair through the check module and the transport,
//! and folds each outcome into an append-only result tree.  The tree's
//! shape is pinned by `skeleton_ok`: exactly one entry per (property, host)
//! pair, in property-major, inventory order.  The recorded outcomes follow
//! the module and the wire, so only their classification is stated.

use vstd::prelude::*;

use vstd::arithmetic::div_mod::lemma_fundamental_div_mod_converse;

use crate::checks::{
    check_wf, lemma_inventory_lookup, property_wf, suite_wf, Check, CheckModel, CheckSuite,
    Property, PropertyModel, SuiteModel,
};
use crate::modules::{Module, ModuleInstance, ModuleRegistry, ProtocolKind};
use crate::protocols::{
    Protocol, TcpConnect, TcpHttp, TcpHttps, TcpRaw, TcpText, Transport, UdpText,
};
use crate::table::spec_lookup;

verus! {

/// Why one (property, host) evaluation failed.
#[derive(Clone, Copy, PartialEq, Eq, Structural, Debug)]
pub enum PropertyError {
    /// The module could not be resolved, or the exchange failed on the
    /// wire.
    FailedExecution,
    /// The exchange came back and the module rejected the response.
    FailedResponseCheck,
    /// A challenge value that does not fit the protocol the module
    /// itself picked.
    Unclassified,
}

/// The outcome of one (property, host) evaluation.
pub struct PropertyResult {
    pub host: String,
    pub property: Property,
    pub result: Result<(), PropertyError>,
}

/// The outcomes of one check, one entry per (property, host) pair.
pub struct CheckResult {
    pub check: Check,
    pub results: Vec<PropertyResult>,
}

/// The read-only artifact of one run.
pub struct CheckSuiteResult {
    pub check_suite: CheckSuite,
    pub results: Vec<CheckResult>,
}

pub ghost struct PropertyResultModel {
    pub host: Seq<char>,
    pub property: PropertyModel,
    pub result: Result<(), PropertyError>,
}

pub ghost struct CheckResultModel {
    pub check: CheckModel,
    pub results: Seq<PropertyResultModel>,
}

pub ghost struct SuiteResultModel {
    pub check_suite: SuiteModel,
    pub results: Seq<CheckResultModel>,
}

impl View for PropertyResult {
    type V = PropertyResultModel;

    open spec fn view(&self) -> PropertyResultModel {
        PropertyResultModel { host: self.host@, property: self.property@, result: self.result }
    }
}

impl DeepView for PropertyResult {
    type V = PropertyResultModel;

    open spec fn deep_view(&self) -> PropertyResultModel {
        self.view()
    }
}

impl View for CheckResult {
    type V = CheckResultModel;

    open spec fn view(&self) -> CheckResultModel {
        CheckResultModel { check: self.check@, results: self.results.deep_view() }
    }
}

impl DeepView for CheckResult {
    type V = CheckResultModel;

    open spec fn deep_view(&self) -> CheckResultModel {
        self.view()
    }
}

impl View for CheckSuiteResult {
    type V = SuiteResultModel;

    open spec fn view(&self) -> SuiteResultModel {
        SuiteResultModel { check_suite: self.check_suite@, results: self.results.deep_view() }
    }
}

impl CheckResult {
    /// An empty result tree node for one check.
    pub fn new(check: &Check) -> (r: CheckResult)
        ensures
            r@.check == check@,
            r.results@.len() == 0,
            r@.results == Seq::<PropertyResultModel>::empty(),
    {
        let r = CheckResult { check: check.duplicate(), results: Vec::new() };
        proof {
            assert(r@.results =~= Seq::<PropertyResultModel>::empty());
        }
        r
    }
}

impl CheckSuiteResult {
    /// An empty result tree for one suite.
    pub fn new(check_suite: &CheckSuite) -> (r: CheckSuiteResult)
        ensures
            r@.check_suite == check_suite@,
            r.results@.len() == 0,
            r@.results == Seq::<CheckResultModel>::empty(),
    {
        let r = CheckSuiteResult { check_suite: check_suite.duplicate(), results: Vec::new() };
        proof {
            assert(r@.results =~= Seq::<CheckResultModel>::empty());
        }
        r
    }
}

/// One entry of a check's results sits where it should: position `n`
/// holds the property at `n / hosts.len()` probed on the host at
/// `n % hosts.len()`.
pub open spec fn entry_ok(
    c: CheckModel,
    hosts: Seq<Seq<char>>,
    e: PropertyResultModel,
    n: int,
) -> bool {
    &&& e.property == c.properties[n / hosts.len() as int]
    &&& e.host == hosts[n % hosts.len() as int]
}

/// The shape one check's results must have.
pub open spec fn check_skeleton_ok(suite: SuiteModel, c: CheckModel, cr: CheckResultModel) -> bool {
    &&& cr.check == c
    &&& spec_lookup(suite.inventory, c.inventory_name) matches Some(hosts) && {
        &&& cr.results.len() == c.properties.len() * hosts.len()
        &&& forall|n: int| 0 <= n < cr.results.len() ==> entry_ok(c, hosts, #[trigger] cr.results[n], n)
    }
}

/// The shape a run's result tree must have for its suite: one node per
/// check, in order, each with one entry per (property, host) pair.
pub open spec fn skeleton_ok(suite: SuiteModel, result: SuiteResultModel) -> bool {
    &&& result.check_suite == suite
    &&& result.results.len() == suite.checks.len()
    &&& forall|i: int|
        0 <= i < suite.checks.len() ==> check_skeleton_ok(
            suite,
            suite.checks[i],
            #[trigger] result.results[i],
        )
}

/// The module's verdict classified: acceptance is success, rejection is a
/// failed response check.
pub fn classify_verdict(verdict: bool) -> (r: Result<(), PropertyError>)
    ensures
        verdict ==> (r matches Ok(u) && u == ()),
        !verdict ==> (r matches Err(e) && e == PropertyError::FailedResponseCheck),
{
    if verdict {
        Ok(())
    } else {
        Err(PropertyError::FailedResponseCheck)
    }
}

/// One (property, host) evaluation: resolve the module named by the
/// property, note its opinion of the parameters (not enforced), take its
/// challenge, run the exchange of the module's protocol kind, and have the
/// module judge the response's fields.  A failed resolution or exchange is
/// a failed execution; a challenge that does not fit the protocol is the
/// module's own fault; a rejected response is a failed response check.
#[verifier::loop_isolation(false)]
pub fn execute_module<R: ModuleRegistry, X: Transport>(
    host: &str,
    property: &Property,
    registry: &R,
    transport: &mut X,
) -> (r: Result<(), PropertyError>)
    requires
        property_wf(property@),
{
    let module = match registry.resolve(property.module.as_str()) {
        Some(m) => m,
        None => {
            return Err(PropertyError::FailedExecution);
        },
    };
    let kind = module.protocol();
    // The module may reject the parameters; the verdict is taken but,
    // as the design stands, deliberately not enforced.
    let _params_ok = module.check_args(&property.params);
    let instance = module.instantiate(&property.params);
    let challenge = instance.challenge();
    let port = property.port().unwrap();
    let verdict: bool = match kind {
        ProtocolKind::ConnectTcp => {
            let p = TcpConnect::new(host, port);
            let _ = TcpConnect::to_data(challenge);
            match transport.exchange_connect(&p) {
                Ok(resp) => instance.check_response(&resp.to_dict()),
                Err(_) => {
                    return Err(PropertyError::FailedExecution);
                },
            }
        },
        ProtocolKind::RawTcp => {
            let mut p = TcpRaw::new(host, port);
            match TcpRaw::to_data(challenge) {
                Ok(Some(data)) => p.set_data(data),
                Ok(None) => (),
                Err(e) => {
                    return Err(e);
                },
            }
            match transport.exchange_raw(&p) {
                Ok(resp) => instance.check_response(&resp.to_dict()),
                Err(_) => {
                    return Err(PropertyError::FailedExecution);
                },
            }
        },
        ProtocolKind::TextTcp => {
            let mut p = TcpText::new(host, port);
            match TcpText::to_data(challenge) {
                Ok(Some(data)) => p.set_data(data),
                Ok(None) => (),
                Err(e) => {
                    return Err(e);
                },
            }
            match transport.exchange_text(&p) {
                Ok(resp) => instance.check_response(&resp.to_dict()),
                Err(_) => {
                    return Err(PropertyError::FailedExecution);
                },
            }
        },
        ProtocolKind::TextUdp => {
            let mut p = UdpText::new(host, port);
            match UdpText::to_data(challenge) {
                Ok(Some(data)) => p.set_data(data),
                Ok(None) => (),
                Err(e) => {
                    return Err(e);
                },
            }
            match transport.exchange_udp_text(&p) {
                Ok(resp) => instance.check_response(&resp.to_dict()),
                Err(_) => {
                    return Err(PropertyError::FailedExecution);
                },
            }
        },
        ProtocolKind::HttpTcp => {
            let mut p = TcpHttp::new(host, port);
            match TcpHttp::to_data(challenge) {
                Ok(Some(data)) => p.set_data(data),
                Ok(None) => (),
                Err(e) => {
                    return Err(e);
                },
            }
            match transport.exchange_http(&p) {
                Ok(resp) => instance.check_response(&resp.to_dict()),
                Err(_) => {
                    return Err(PropertyError::FailedExecution);
                },
            }
        },
        ProtocolKind::HttpsTcp => {
            let mut p = TcpHttps::new(host, port);
            match TcpHttps::to_data(challenge) {
                Ok(Some(data)) => p.set_data(data),
                Ok(None) => (),
                Err(e) => {
                    return Err(e);
                },
            }
            match transport.exchange_https(&p) {
                Ok(resp) => instance.check_response(&resp.to_dict()),
                Err(_) => {
                    return Err(PropertyError::FailedExecution);
                },
            }
        },
    };
    classify_verdict(verdict)
}

/// Runs a whole suite: every property of every check, probed on every
/// host of the check's group, in declaration and inventory order.  The
/// result tree has exactly the shape `skeleton_ok` states — in
/// particular, one `PropertyResult` per (property, host) pair.
#[verifier::loop_isolation(false)]
pub fn run<R: ModuleRegistry, X: Transport>(
    check_suite: &CheckSuite,
    registry: &R,
    transport: &mut X,
) -> (r: CheckSuiteResult)
    requires
        suite_wf(check_suite@),
    ensures
        skeleton_ok(check_suite@, r@),
{
    let mut check_suite_result = CheckSuiteResult::new(check_suite);
    let nc = check_suite.checks.len();
    let mut i: usize = 0;
    while i < nc
        invariant
            i <= nc,
            check_suite_result@.check_suite == check_suite@,
            check_suite_result.results@.len() == i,
            check_suite_result@.results.len() == i,
            forall|l: int|
                0 <= l < i ==> check_skeleton_ok(
                    check_suite@,
                    check_suite@.checks[l],
                    #[trigger] check_suite_result@.results[l],
                ),
        decreases nc - i,
    {
        let check = &check_suite.checks[i];
        proof {
            assert(check@ == check_suite@.checks[i as int]);
            assert(check_wf(check_suite@, check@));
            lemma_inventory_lookup(check_suite.inventory@, check.inventory_name@, 0);
        }
        let mut check_result = CheckResult::new(check);
        let hosts: &Vec<String> = match check_suite.inventory.get(check.inventory_name.as_str()) {
            Some(h) => h,
            None => vstd::pervasive::unreached(),
        };
        proof {
            assert(spec_lookup(check_suite@.inventory, check@.inventory_name) == Some(
                hosts.deep_view(),
            ));
        }
        let np = check.properties.len();
        let nh = hosts.len();
        let mut j: usize = 0;
        proof {
            assert(0 * nh == 0) by (nonlinear_arith);
        }
        while j < np
            invariant
                j <= np,
                check_result@.check == check@,
                check_result.results@.len() == j * nh,
                check_result@.results.len() == j * nh,
                forall|m: int|
                    0 <= m < j * nh ==> entry_ok(
                        check@,
                        hosts.deep_view(),
                        #[trigger] check_result@.results[m],
                        m,
                    ),
            decreases np - j,
        {
            let property = &check.properties[j];
            proof {
                assert(property@ == check@.properties[j as int]);
                assert(property_wf(property@));
            }
            let mut k: usize = 0;
            while k < nh
                invariant
                    k <= nh,
                    check_result@.check == check@,
                    check_result.results@.len() == j * nh + k,
                    check_result@.results.len() == j * nh + k,
                    forall|m: int|
                        0 <= m < j * nh + k ==> entry_ok(
                            check@,
                            hosts.deep_view(),
                            #[trigger] check_result@.results[m],
                            m,
                        ),
                decreases nh - k,
            {
                let host: &String = &hosts[k];
                let result = execute_module(host.as_str(), property, registry, transport);
                let property_result = PropertyResult {
                    host: host.clone(),
                    property: property.duplicate(),
                    result,
                };
                let ghost pre = check_result@.results;
                let ghost new_entry = property_result@;
                check_result.results.push(property_result);
                proof {
                    assert forall|m: int| 0 <= m < pre.len() + 1 implies check_result@.results[m]
                        == pre.push(new_entry)[m] by {
                        assert(check_result@.results[m] == check_result.results@[m].deep_view());
                    }
                    assert(check_result@.results =~= pre.push(new_entry));
                    let n = j * nh + k;
                    lemma_fundamental_div_mod_converse(n, nh as int, j as int, k as int);
                    assert(check_result@.results[n] == new_entry);
                    assert(entry_ok(check@, hosts.deep_view(), new_entry, n));
                }
                k += 1;
            }
            proof {
                assert((j + 1) * nh == j * nh + nh) by (nonlinear_arith);
            }
            j += 1;
        }
        let ghost pre = check_suite_result@.results;
        let ghost new_node = check_result@;
        check_suite_result.results.push(check_result);
        proof {
            assert forall|l: int| 0 <= l < pre.len() + 1 implies check_suite_result@.results[l]
                == pre.push(new_node)[l] by {
                assert(check_suite_result@.results[l] == check_suite_result.results@[
                    l
                ].deep_view());
            }
            assert(check_suite_result@.results =~= pre.push(new_node));
            assert(check_suite_result@.results[i as int] == new_node);
            assert(check_skeleton_ok(check_suite@, check_suite@.checks[i as int], new_node));
        }
        i += 1;
    }
    check_suite_result
}

/// Law: the shape of a run's result is a function of the suite alone.
/// Two result trees of the same suite have the same number of checks, the
/// same check at every node, the same entry count per node, and the same
/// (property, host) pair at every position; only the recorded outcomes may
/// differ, as they follow the probed targets.
pub proof fn lemma_run_structure_deterministic(
    suite: SuiteModel,
    r1: SuiteResultModel,
    r2: SuiteResultModel,
)
    requires
        skeleton_ok(suite, r1),
        skeleton_ok(suite, r2),
    ensures
        r1.results.len() == r2.results.len(),
        forall|i: int|
            0 <= i < r1.results.len() ==> {
                &&& #[trigger] r1.results[i].check == r2.results[i].check
                &&& r1.results[i].results.len() == r2.results[i].results.len()
            },
        forall|i: int, n: int|
            0 <= i < r1.results.len() && 0 <= n < r1.results[i].results.len() ==> {
                &&& #[trigger] r1.results[i].results[n].property == r2.results[i].results[n].property
                &&& r1.results[i].results[n].host == r2.results[i].results[n].host
            },
{
    assert forall|i: int| 0 <= i < r1.results.len() implies {
        &&& #[trigger] r1.results[i].check == r2.results[i].check
        &&& r1.results[i].results.len() == r2.results[i].results.len()
    } by {
        assert(check_skeleton_ok(suite, suite.checks[i], r1.results[i]));
        assert(check_skeleton_ok(suite, suite.checks[i], r2.results[i]));
    }
    assert forall|i: int, n: int|
        0 <= i < r1.results.len() && 0 <= n < r1.results[i].results.len() implies {
        &&& #[trigger] r1.results[i].results[n].property == r2.results[i].results[n].property
        &&& r1.results[i].results[n].host == r2.results[i].results[n].host
    } by {
        assert(check_skeleton_ok(suite, suite.checks[i], r1.results[i]));
        assert(check_skeleton_ok(suite, suite.checks[i], r2.results[i]));
        assert(entry_ok(
            suite.checks[i],
            spec_lookup(suite.inventory, suite.checks[i].inventory_name).unwrap(),
            r1.results[i].results[n],
            n,
        ));
        assert(entry_ok(
            suite.checks[i],
            spec_lookup(suite.inventory, suite.checks[i].inventory_name).unwrap(),
            r2.results[i].results[n],
            n,
        ));
    }
}

} // verus!
