//! The setup plan: the exact ordered sequence of settings the engine
//! applies to a transport handle before any I/O.

use vstd::prelude::*;
use vstd::utf8::encode_utf8;
use crate::config::Config;
use crate::header::{spec_header_line, Header};
use crate::method::{spec_token, RequestMethod};

verus! {

/// One setting applied to the transport handle.
///
/// The caller that owns the handle performs each action in order:
/// target URL, header passthrough and progress switches, verbosity, TLS
/// verification, redirect following, connect timeout, the verb
/// selection, the advertised outgoing field size, and the outgoing
/// header lines.
#[derive(Debug, Clone)]
pub enum SetupAction {
    Url(String),
    ShowHeader(bool),
    Progress(bool),
    Verbose(bool),
    SslVerifyHost(bool),
    SslVerifyPeer(bool),
    FollowLocation(bool),
    ConnectTimeoutMs(u64),
    Upload(bool),
    InFileSize(u64),
    SelectGet,
    SelectNoBody,
    SelectPost,
    CustomRequest(String),
    PostFieldSize(u64),
    AppendHeader(String),
}

/// The mathematical model of a [`SetupAction`]: the same shape over
/// character sequences.
#[verifier::ext_equal]
pub enum SetupStepModel {
    Url(Seq<char>),
    ShowHeader(bool),
    Progress(bool),
    Verbose(bool),
    SslVerifyHost(bool),
    SslVerifyPeer(bool),
    FollowLocation(bool),
    ConnectTimeoutMs(u64),
    Upload(bool),
    InFileSize(u64),
    SelectGet,
    SelectNoBody,
    SelectPost,
    CustomRequest(Seq<char>),
    PostFieldSize(u64),
    AppendHeader(Seq<char>),
}

impl View for SetupAction {
    type V = SetupStepModel;

    open spec fn view(&self) -> SetupStepModel {
        match self {
            SetupAction::Url(s) => SetupStepModel::Url(s@),
            SetupAction::ShowHeader(b) => SetupStepModel::ShowHeader(*b),
            SetupAction::Progress(b) => SetupStepModel::Progress(*b),
            SetupAction::Verbose(b) => SetupStepModel::Verbose(*b),
            SetupAction::SslVerifyHost(b) => SetupStepModel::SslVerifyHost(*b),
            SetupAction::SslVerifyPeer(b) => SetupStepModel::SslVerifyPeer(*b),
            SetupAction::FollowLocation(b) => SetupStepModel::FollowLocation(*b),
            SetupAction::ConnectTimeoutMs(n) => SetupStepModel::ConnectTimeoutMs(*n),
            SetupAction::Upload(b) => SetupStepModel::Upload(*b),
            SetupAction::InFileSize(n) => SetupStepModel::InFileSize(*n),
            SetupAction::SelectGet => SetupStepModel::SelectGet,
            SetupAction::SelectNoBody => SetupStepModel::SelectNoBody,
            SetupAction::SelectPost => SetupStepModel::SelectPost,
            SetupAction::CustomRequest(s) => SetupStepModel::CustomRequest(s@),
            SetupAction::PostFieldSize(n) => SetupStepModel::PostFieldSize(*n),
            SetupAction::AppendHeader(s) => SetupStepModel::AppendHeader(s@),
        }
    }
}

/// The byte length of the configured body, if one is configured.
pub open spec fn spec_body_bytes(c: Config) -> Option<nat> {
    match c.data {
        Some(d) => Some(encode_utf8(d@).len()),
        None => None,
    }
}

/// The unconditional opening settings: URL, header passthrough off,
/// progress on, verbosity as configured.
pub open spec fn spec_base_steps(c: Config) -> Seq<SetupStepModel> {
    seq![
        SetupStepModel::Url(c.url@),
        SetupStepModel::ShowHeader(false),
        SetupStepModel::Progress(true),
        SetupStepModel::Verbose(c.verbose),
    ]
}

/// With `insecure`, TLS peer and host verification are switched off.
pub open spec fn spec_tls_steps(c: Config) -> Seq<SetupStepModel> {
    if c.insecure {
        seq![SetupStepModel::SslVerifyHost(false), SetupStepModel::SslVerifyPeer(false)]
    } else {
        Seq::empty()
    }
}

/// With `location`, redirects are followed.
pub open spec fn spec_redirect_steps(c: Config) -> Seq<SetupStepModel> {
    if c.location {
        seq![SetupStepModel::FollowLocation(true)]
    } else {
        Seq::empty()
    }
}

/// A configured connect timeout is applied.
pub open spec fn spec_timeout_steps(c: Config) -> Seq<SetupStepModel> {
    match c.connect_timeout {
        Some(ms) => seq![SetupStepModel::ConnectTimeoutMs(ms)],
        None => Seq::empty(),
    }
}

/// The verb selection. PUT arms upload mode and advertises the body
/// length as the expected input size; GET, HEAD and POST select their
/// dedicated modes; every other method goes on the wire as a literal
/// custom request token.
pub open spec fn spec_verb_steps(c: Config) -> Seq<SetupStepModel> {
    match c.request_method {
        RequestMethod::Put => seq![SetupStepModel::Upload(true)] + (match spec_body_bytes(c) {
            Some(n) => seq![SetupStepModel::InFileSize(n as u64)],
            None => Seq::empty(),
        }),
        RequestMethod::Get => seq![SetupStepModel::SelectGet],
        RequestMethod::Head => seq![SetupStepModel::SelectNoBody],
        RequestMethod::Post => seq![SetupStepModel::SelectPost],
        m => seq![SetupStepModel::CustomRequest(spec_token(m))],
    }
}

/// A body carried by any verb other than PUT advertises its byte length
/// as the outgoing field size.
pub open spec fn spec_field_size_steps(c: Config) -> Seq<SetupStepModel> {
    match spec_body_bytes(c) {
        Some(n) => if !(c.request_method is Put) {
            seq![SetupStepModel::PostFieldSize(n as u64)]
        } else {
            Seq::empty()
        },
        None => Seq::empty(),
    }
}

/// Every configured header is attached, in insertion order, as the
/// literal line `name: value`.
pub open spec fn spec_header_steps(c: Config) -> Seq<SetupStepModel> {
    match c.headers {
        Some(hs) => Seq::new(hs@.len(), |i: int| SetupStepModel::AppendHeader(spec_header_line(hs@[i]@))),
        None => Seq::empty(),
    }
}

/// The whole setup plan, in the order the engine applies it.
pub open spec fn spec_setup_plan(c: Config) -> Seq<SetupStepModel> {
    spec_base_steps(c) + spec_tls_steps(c) + spec_redirect_steps(c) + spec_timeout_steps(c)
        + spec_verb_steps(c) + spec_field_size_steps(c) + spec_header_steps(c)
}

/// The views of the planned actions.
pub open spec fn plan_view(plan: Seq<SetupAction>) -> Seq<SetupStepModel> {
    plan.map_values(|a: SetupAction| a@)
}

/// Computes the setup plan for a configuration, as `spec_setup_plan`
/// describes.
pub fn setup_actions(config: &Config) -> (plan: Vec<SetupAction>)
    ensures
        plan_view(plan@) == spec_setup_plan(*config),
{
    let mut plan: Vec<SetupAction> = Vec::new();
    plan.push(SetupAction::Url(config.url.clone()));
    plan.push(SetupAction::ShowHeader(false));
    plan.push(SetupAction::Progress(true));
    plan.push(SetupAction::Verbose(config.verbose));
    proof {
        assert(plan_view(plan@) =~~= spec_base_steps(*config));
    }
    if config.insecure {
        plan.push(SetupAction::SslVerifyHost(false));
        plan.push(SetupAction::SslVerifyPeer(false));
    }
    proof {
        assert(plan_view(plan@) =~~= spec_base_steps(*config) + spec_tls_steps(*config));
    }
    if config.location {
        plan.push(SetupAction::FollowLocation(true));
    }
    match config.connect_timeout {
        Some(ms) => plan.push(SetupAction::ConnectTimeoutMs(ms)),
        None => {},
    }
    let ghost through_timeout = spec_base_steps(*config) + spec_tls_steps(*config)
        + spec_redirect_steps(*config) + spec_timeout_steps(*config);
    proof {
        assert(plan_view(plan@) =~~= through_timeout);
    }
    let data_len: Option<u64> = match &config.data {
        Some(d) => {
            let bytes = d.as_str().as_bytes_vec();
            Some(bytes.len() as u64)
        },
        None => None,
    };
    proof {
        assert(data_len == match spec_body_bytes(*config) {
            Some(n) => Some(n as u64),
            None => None::<u64>,
        });
    }
    let is_put = match &config.request_method {
        RequestMethod::Put => true,
        _ => false,
    };
    match &config.request_method {
        RequestMethod::Put => {
            plan.push(SetupAction::Upload(true));
            match data_len {
                Some(n) => plan.push(SetupAction::InFileSize(n)),
                None => {},
            }
        },
        RequestMethod::Get => plan.push(SetupAction::SelectGet),
        RequestMethod::Head => plan.push(SetupAction::SelectNoBody),
        RequestMethod::Post => plan.push(SetupAction::SelectPost),
        other => plan.push(SetupAction::CustomRequest(String::from_str(other.as_str()))),
    }
    proof {
        assert(plan_view(plan@) =~~= through_timeout + spec_verb_steps(*config));
    }
    match data_len {
        Some(n) => if !is_put {
            plan.push(SetupAction::PostFieldSize(n));
        },
        None => {},
    }
    let ghost through_field = through_timeout + spec_verb_steps(*config) + spec_field_size_steps(
        *config,
    );
    proof {
        assert(plan_view(plan@) =~~= through_field);
    }
    match &config.headers {
        Some(hs) => {
            push_header_lines(&mut plan, hs);
            proof {
                assert(Seq::new(
                    hs@.len(),
                    |k: int| SetupStepModel::AppendHeader(spec_header_line(hs@[k]@)),
                ) =~~= spec_header_steps(*config));
            }
        },
        None => {},
    }
    proof {
        assert(plan_view(plan@) =~~= spec_setup_plan(*config));
    }
    plan
}

/// Appends one `AppendHeader` action per configured header, in order.
fn push_header_lines(plan: &mut Vec<SetupAction>, hs: &Vec<Header>)
    ensures
        plan_view(final(plan)@) == plan_view(old(plan)@) + Seq::new(
            hs@.len(),
            |k: int| SetupStepModel::AppendHeader(spec_header_line(hs@[k]@)),
        ),
{
    let ghost pre = plan_view(old(plan)@);
    let mut i: usize = 0;
    while i < hs.len()
        invariant
            i <= hs.len(),
            plan_view(plan@) =~~= pre + Seq::new(
                i as nat,
                |k: int| SetupStepModel::AppendHeader(spec_header_line(hs@[k]@)),
            ),
        decreases hs.len() - i,
    {
        let ghost before = plan@;
        let line = hs[i].to_line();
        plan.push(SetupAction::AppendHeader(line));
        proof {
            let target = pre + Seq::new(
                (i + 1) as nat,
                |k: int| SetupStepModel::AppendHeader(spec_header_line(hs@[k]@)),
            );
            assert(plan@ == before.push(SetupAction::AppendHeader(line)));
            assert(plan_view(before) == pre + Seq::new(
                i as nat,
                |k: int| SetupStepModel::AppendHeader(spec_header_line(hs@[k]@)),
            ));
            assert(plan@.len() == before.len() + 1);
            assert(plan_view(plan@).len() == plan@.len());
            assert(plan_view(before).len() == before.len());
            assert(before.len() == pre.len() + i);
            assert(target.len() == pre.len() + i + 1);
            assert(plan_view(plan@).len() == target.len());
            assert forall|j: int| 0 <= j < target.len() implies plan_view(plan@)[j] == target[j] by {
                assert(plan_view(plan@)[j] == plan@[j]@);
                if j < before.len() {
                    assert(plan@[j] == before[j]);
                    assert(plan_view(before)[j] == before[j]@);
                } else {
                    assert(plan@[j] == SetupAction::AppendHeader(line));
                    assert(target[j] == SetupStepModel::AppendHeader(
                        spec_header_line(hs@[i as int]@),
                    ));
                }
            }
            assert(plan_view(plan@) =~~= target);
        }
        i = i + 1;
    }
    proof {
        assert(plan_view(plan@) =~~= pre + Seq::new(
            hs@.len(),
            |k: int| SetupStepModel::AppendHeader(spec_header_line(hs@[k]@)),
        ));
    }
}

/// The field-size policy: a PUT never advertises an outgoing field
/// size, whatever its body; any other verb carrying a body advertises
/// the body's byte length, even a GET.
pub proof fn lemma_field_size_policy(c: Config)
    ensures
        c.request_method is Put ==> forall|i: int|
            0 <= i < spec_setup_plan(c).len() ==> !(spec_setup_plan(c)[i] is PostFieldSize),
        (c.data is Some && !(c.request_method is Put)) ==> exists|i: int|
            0 <= i < spec_setup_plan(c).len() && spec_setup_plan(c)[i]
                == SetupStepModel::PostFieldSize(spec_body_bytes(c).unwrap() as u64),
{
    let plan = spec_setup_plan(c);
    let pre = spec_base_steps(c) + spec_tls_steps(c) + spec_redirect_steps(c)
        + spec_timeout_steps(c) + spec_verb_steps(c);
    assert(plan =~= pre + spec_field_size_steps(c) + spec_header_steps(c));
    if c.request_method is Put {
        assert forall|i: int| 0 <= i < plan.len() implies !(plan[i] is PostFieldSize) by {
            assert(plan[i] == (pre + spec_field_size_steps(c) + spec_header_steps(c))[i]);
        }
    }
    if c.data is Some && !(c.request_method is Put) {
        let w = pre.len() as int;
        assert(plan[w] == spec_field_size_steps(c)[0]);
        assert(plan[w] == SetupStepModel::PostFieldSize(spec_body_bytes(c).unwrap() as u64));
    }
}

} // verus!
