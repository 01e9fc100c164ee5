//! Mid-connect input requests, and which of them this applet will service.
//!
//! The numbers are those of openvpn3-linux `src/dbus/constants.hpp`.

use crate::text::{is_white, law_blank_text_trims_to_nothing, trim, trimmed};
use crate::wire::UnknownWireValue;
use vstd::prelude::*;
use vstd::string::*;

verus! {

/// `ClientAttentionType`: the broad category of an `AttentionRequired`.
#[derive(Debug, Clone, Copy, PartialEq, Eq, Structural, Hash)]
pub enum ClientAttentionType {
    Unset,
    Credentials,
    Pkcs11,
    AccessPerm,
}

impl ClientAttentionType {
    /// Every type, in the order of its number on the bus.
    pub const ALL: [ClientAttentionType; 4] = [
        ClientAttentionType::Unset,
        ClientAttentionType::Credentials,
        ClientAttentionType::Pkcs11,
        ClientAttentionType::AccessPerm,
    ];

    /// The number this value has on the bus.
    pub open spec fn wire(self) -> u8 {
        match self {
            ClientAttentionType::Unset => 0,
            ClientAttentionType::Credentials => 1,
            ClientAttentionType::Pkcs11 => 2,
            ClientAttentionType::AccessPerm => 3,
        }
    }

    /// The value that the bus writes as `value`.
    pub open spec fn decoded(value: u8) -> Result<ClientAttentionType, UnknownWireValue> {
        if value == 0 {
            Ok(ClientAttentionType::Unset)
        } else if value == 1 {
            Ok(ClientAttentionType::Credentials)
        } else if value == 2 {
            Ok(ClientAttentionType::Pkcs11)
        } else if value == 3 {
            Ok(ClientAttentionType::AccessPerm)
        } else {
            Err(UnknownWireValue { kind: "ClientAttentionType", value: value as u32 })
        }
    }

    /// The variant's name, as it is written in log lines.
    pub open spec fn label(self) -> Seq<char> {
        match self {
            ClientAttentionType::Unset => "Unset"@,
            ClientAttentionType::Credentials => "Credentials"@,
            ClientAttentionType::Pkcs11 => "Pkcs11"@,
            ClientAttentionType::AccessPerm => "AccessPerm"@,
        }
    }

    /// The variant's name.
    pub fn name(self) -> (name: &'static str)
        ensures
            name@ == self.label(),
    {
        match self {
            ClientAttentionType::Unset => "Unset",
            ClientAttentionType::Credentials => "Credentials",
            ClientAttentionType::Pkcs11 => "Pkcs11",
            ClientAttentionType::AccessPerm => "AccessPerm",
        }
    }
}

impl TryFrom<u8> for ClientAttentionType {
    type Error = UnknownWireValue;

    fn try_from(value: u8) -> (decoded: Result<ClientAttentionType, UnknownWireValue>) {
        match value {
            0 => Ok(ClientAttentionType::Unset),
            1 => Ok(ClientAttentionType::Credentials),
            2 => Ok(ClientAttentionType::Pkcs11),
            3 => Ok(ClientAttentionType::AccessPerm),
            other => Err(UnknownWireValue { kind: "ClientAttentionType", value: other as u32 }),
        }
    }
}

impl vstd::std_specs::convert::TryFromSpecImpl<u8> for ClientAttentionType {
    open spec fn obeys_try_from_spec() -> bool {
        true
    }

    open spec fn try_from_spec(value: u8) -> Result<ClientAttentionType, UnknownWireValue> {
        ClientAttentionType::decoded(value)
    }
}

impl From<ClientAttentionType> for u8 {
    fn from(value: ClientAttentionType) -> (wire: u8) {
        match value {
            ClientAttentionType::Unset => 0,
            ClientAttentionType::Credentials => 1,
            ClientAttentionType::Pkcs11 => 2,
            ClientAttentionType::AccessPerm => 3,
        }
    }
}

impl vstd::std_specs::convert::FromSpecImpl<ClientAttentionType> for u8 {
    open spec fn obeys_from_spec() -> bool {
        true
    }

    open spec fn from_spec(value: ClientAttentionType) -> u8 {
        value.wire()
    }
}

/// Decoding undoes encoding, and a number decodes to the one value that encodes
/// to it.
pub proof fn law_client_attention_type_round_trip(item: ClientAttentionType, value: u8)
    ensures
        ClientAttentionType::decoded(item.wire()) == Ok::<_, UnknownWireValue>(item),
        ClientAttentionType::decoded(value) == Ok::<_, UnknownWireValue>(item) <==> item.wire()
            == value,
{
}

/// `ClientAttentionGroup`: what specifically is being asked for.
#[derive(Debug, Clone, Copy, PartialEq, Eq, Structural, Hash)]
pub enum ClientAttentionGroup {
    Unset,
    UserPassword,
    HttpProxyCreds,
    PkPassphrase,
    ChallengeStatic,
    ChallengeDynamic,
    ChallengeAuthPending,
    Pkcs11Sign,
    Pkcs11Decrypt,
    OpenUrl,
}

impl ClientAttentionGroup {
    /// Every group, in the order of its number on the bus.
    pub const ALL: [ClientAttentionGroup; 10] = [
        ClientAttentionGroup::Unset,
        ClientAttentionGroup::UserPassword,
        ClientAttentionGroup::HttpProxyCreds,
        ClientAttentionGroup::PkPassphrase,
        ClientAttentionGroup::ChallengeStatic,
        ClientAttentionGroup::ChallengeDynamic,
        ClientAttentionGroup::ChallengeAuthPending,
        ClientAttentionGroup::Pkcs11Sign,
        ClientAttentionGroup::Pkcs11Decrypt,
        ClientAttentionGroup::OpenUrl,
    ];

    /// The number this value has on the bus.
    pub open spec fn wire(self) -> u8 {
        match self {
            ClientAttentionGroup::Unset => 0,
            ClientAttentionGroup::UserPassword => 1,
            ClientAttentionGroup::HttpProxyCreds => 2,
            ClientAttentionGroup::PkPassphrase => 3,
            ClientAttentionGroup::ChallengeStatic => 4,
            ClientAttentionGroup::ChallengeDynamic => 5,
            ClientAttentionGroup::ChallengeAuthPending => 6,
            ClientAttentionGroup::Pkcs11Sign => 7,
            ClientAttentionGroup::Pkcs11Decrypt => 8,
            ClientAttentionGroup::OpenUrl => 9,
        }
    }

    /// The value that the bus writes as `value`.
    pub open spec fn decoded(value: u8) -> Result<ClientAttentionGroup, UnknownWireValue> {
        if value == 0 {
            Ok(ClientAttentionGroup::Unset)
        } else if value == 1 {
            Ok(ClientAttentionGroup::UserPassword)
        } else if value == 2 {
            Ok(ClientAttentionGroup::HttpProxyCreds)
        } else if value == 3 {
            Ok(ClientAttentionGroup::PkPassphrase)
        } else if value == 4 {
            Ok(ClientAttentionGroup::ChallengeStatic)
        } else if value == 5 {
            Ok(ClientAttentionGroup::ChallengeDynamic)
        } else if value == 6 {
            Ok(ClientAttentionGroup::ChallengeAuthPending)
        } else if value == 7 {
            Ok(ClientAttentionGroup::Pkcs11Sign)
        } else if value == 8 {
            Ok(ClientAttentionGroup::Pkcs11Decrypt)
        } else if value == 9 {
            Ok(ClientAttentionGroup::OpenUrl)
        } else {
            Err(UnknownWireValue { kind: "ClientAttentionGroup", value: value as u32 })
        }
    }

    /// The variant's name, as it is written in log lines.
    pub open spec fn label(self) -> Seq<char> {
        match self {
            ClientAttentionGroup::Unset => "Unset"@,
            ClientAttentionGroup::UserPassword => "UserPassword"@,
            ClientAttentionGroup::HttpProxyCreds => "HttpProxyCreds"@,
            ClientAttentionGroup::PkPassphrase => "PkPassphrase"@,
            ClientAttentionGroup::ChallengeStatic => "ChallengeStatic"@,
            ClientAttentionGroup::ChallengeDynamic => "ChallengeDynamic"@,
            ClientAttentionGroup::ChallengeAuthPending => "ChallengeAuthPending"@,
            ClientAttentionGroup::Pkcs11Sign => "Pkcs11Sign"@,
            ClientAttentionGroup::Pkcs11Decrypt => "Pkcs11Decrypt"@,
            ClientAttentionGroup::OpenUrl => "OpenUrl"@,
        }
    }

    /// The variant's name.
    pub fn name(self) -> (name: &'static str)
        ensures
            name@ == self.label(),
    {
        match self {
            ClientAttentionGroup::Unset => "Unset",
            ClientAttentionGroup::UserPassword => "UserPassword",
            ClientAttentionGroup::HttpProxyCreds => "HttpProxyCreds",
            ClientAttentionGroup::PkPassphrase => "PkPassphrase",
            ClientAttentionGroup::ChallengeStatic => "ChallengeStatic",
            ClientAttentionGroup::ChallengeDynamic => "ChallengeDynamic",
            ClientAttentionGroup::ChallengeAuthPending => "ChallengeAuthPending",
            ClientAttentionGroup::Pkcs11Sign => "Pkcs11Sign",
            ClientAttentionGroup::Pkcs11Decrypt => "Pkcs11Decrypt",
            ClientAttentionGroup::OpenUrl => "OpenUrl",
        }
    }
}

impl TryFrom<u8> for ClientAttentionGroup {
    type Error = UnknownWireValue;

    fn try_from(value: u8) -> (decoded: Result<ClientAttentionGroup, UnknownWireValue>) {
        match value {
            0 => Ok(ClientAttentionGroup::Unset),
            1 => Ok(ClientAttentionGroup::UserPassword),
            2 => Ok(ClientAttentionGroup::HttpProxyCreds),
            3 => Ok(ClientAttentionGroup::PkPassphrase),
            4 => Ok(ClientAttentionGroup::ChallengeStatic),
            5 => Ok(ClientAttentionGroup::ChallengeDynamic),
            6 => Ok(ClientAttentionGroup::ChallengeAuthPending),
            7 => Ok(ClientAttentionGroup::Pkcs11Sign),
            8 => Ok(ClientAttentionGroup::Pkcs11Decrypt),
            9 => Ok(ClientAttentionGroup::OpenUrl),
            other => Err(UnknownWireValue { kind: "ClientAttentionGroup", value: other as u32 }),
        }
    }
}

impl vstd::std_specs::convert::TryFromSpecImpl<u8> for ClientAttentionGroup {
    open spec fn obeys_try_from_spec() -> bool {
        true
    }

    open spec fn try_from_spec(value: u8) -> Result<ClientAttentionGroup, UnknownWireValue> {
        ClientAttentionGroup::decoded(value)
    }
}

impl From<ClientAttentionGroup> for u8 {
    fn from(value: ClientAttentionGroup) -> (wire: u8) {
        match value {
            ClientAttentionGroup::Unset => 0,
            ClientAttentionGroup::UserPassword => 1,
            ClientAttentionGroup::HttpProxyCreds => 2,
            ClientAttentionGroup::PkPassphrase => 3,
            ClientAttentionGroup::ChallengeStatic => 4,
            ClientAttentionGroup::ChallengeDynamic => 5,
            ClientAttentionGroup::ChallengeAuthPending => 6,
            ClientAttentionGroup::Pkcs11Sign => 7,
            ClientAttentionGroup::Pkcs11Decrypt => 8,
            ClientAttentionGroup::OpenUrl => 9,
        }
    }
}

impl vstd::std_specs::convert::FromSpecImpl<ClientAttentionGroup> for u8 {
    open spec fn obeys_from_spec() -> bool {
        true
    }

    open spec fn from_spec(value: ClientAttentionGroup) -> u8 {
        value.wire()
    }
}

/// Decoding undoes encoding, and a number decodes to the one value that encodes
/// to it.
pub proof fn law_client_attention_group_round_trip(item: ClientAttentionGroup, value: u8)
    ensures
        ClientAttentionGroup::decoded(item.wire()) == Ok::<_, UnknownWireValue>(item),
        ClientAttentionGroup::decoded(value) == Ok::<_, UnknownWireValue>(item) <==> item.wire()
            == value,
{
}

/// The shape of prompt to present. Exactly these three are serviced.
#[derive(Debug, Clone, Copy, PartialEq, Eq, Structural)]
pub enum PromptKind {
    UserPassword,
    PrivateKeyPassphrase,
    Challenge,
}

/// What to do about an `AttentionRequired`.
#[derive(Debug, Clone, PartialEq, Eq)]
pub enum AttentionRouting {
    Prompt(PromptKind),
    /// Out of scope. The caller disconnects the session and surfaces `reason`,
    /// because a request left unanswered parks the session forever behind a
    /// "connecting" icon with no way for the user to find out why.
    Unsupported { reason: String },
}

/// An `AttentionRouting` with its text as a sequence of characters.
pub enum AttentionRoutingView {
    Prompt(PromptKind),
    Unsupported { reason: Seq<char> },
}

impl View for AttentionRouting {
    type V = AttentionRoutingView;

    open spec fn view(&self) -> AttentionRoutingView {
        match *self {
            AttentionRouting::Prompt(kind) => AttentionRoutingView::Prompt(kind),
            AttentionRouting::Unsupported { reason } => AttentionRoutingView::Unsupported {
                reason: reason@,
            },
        }
    }
}

/// The prompt that answers a request, where one does.
pub open spec fn prompt_for(type_: ClientAttentionType, group: ClientAttentionGroup) -> Option<
    PromptKind,
> {
    if type_ != ClientAttentionType::Credentials {
        None
    } else {
        match group {
            ClientAttentionGroup::UserPassword => Some(PromptKind::UserPassword),
            ClientAttentionGroup::PkPassphrase => Some(PromptKind::PrivateKeyPassphrase),
            ClientAttentionGroup::ChallengeStatic | ClientAttentionGroup::ChallengeDynamic => Some(
                PromptKind::Challenge,
            ),
            _ => None,
        }
    }
}

/// Why a request that no prompt answers ends the attempt.
pub open spec fn refusal(type_: ClientAttentionType, group: ClientAttentionGroup) -> Seq<char> {
    match type_ {
        ClientAttentionType::Pkcs11 =>
            "This profile requires a smartcard or PKCS#11 token, which this applet does not support."@,
        ClientAttentionType::AccessPerm =>
            "openvpn3 asked for an access-permission decision, which this applet does not handle."@,
        ClientAttentionType::Credentials if group == ClientAttentionGroup::OpenUrl =>
            "This profile uses browser-based (web) authentication, which this applet does not support. Start it from a terminal with `openvpn3 session-start`."@,
        ClientAttentionType::Credentials if group == ClientAttentionGroup::HttpProxyCreds =>
            "This profile asked for HTTP proxy credentials, which this applet does not support."@,
        ClientAttentionType::Credentials if group == ClientAttentionGroup::ChallengeAuthPending =>
            "This profile requires out-of-band approval to continue, which this applet cannot wait on. Start it from a terminal with `openvpn3 session-start`."@,
        _ => "Unsupported openvpn3 request: "@ + type_.label() + "/"@ + group.label() + "."@,
    }
}

/// What becomes of a request.
pub open spec fn routing(
    type_: ClientAttentionType,
    group: ClientAttentionGroup,
) -> AttentionRoutingView {
    match prompt_for(type_, group) {
        Some(kind) => AttentionRoutingView::Prompt(kind),
        None => AttentionRoutingView::Unsupported { reason: refusal(type_, group) },
    }
}

/// The routing table. Total by construction: the fallback arm means a
/// combination nobody anticipated fails loudly rather than reaching a prompt
/// that cannot answer it correctly.
pub fn route_attention(type_: ClientAttentionType, group: ClientAttentionGroup) -> (route:
    AttentionRouting)
    ensures
        route@ == routing(type_, group),
{
    let reason = match (type_, group) {
        (ClientAttentionType::Credentials, ClientAttentionGroup::UserPassword) => {
            return AttentionRouting::Prompt(PromptKind::UserPassword);
        },
        (ClientAttentionType::Credentials, ClientAttentionGroup::PkPassphrase) => {
            return AttentionRouting::Prompt(PromptKind::PrivateKeyPassphrase);
        },
        (
            ClientAttentionType::Credentials,
            ClientAttentionGroup::ChallengeStatic | ClientAttentionGroup::ChallengeDynamic,
        ) => {
            return AttentionRouting::Prompt(PromptKind::Challenge);
        },
        (ClientAttentionType::Credentials, ClientAttentionGroup::OpenUrl) =>
            "This profile uses browser-based (web) authentication, which this applet does not support. Start it from a terminal with `openvpn3 session-start`.",
        (ClientAttentionType::Credentials, ClientAttentionGroup::HttpProxyCreds) =>
            "This profile asked for HTTP proxy credentials, which this applet does not support.",
        (ClientAttentionType::Credentials, ClientAttentionGroup::ChallengeAuthPending) =>
            "This profile requires out-of-band approval to continue, which this applet cannot wait on. Start it from a terminal with `openvpn3 session-start`.",
        (ClientAttentionType::Pkcs11, _) =>
            "This profile requires a smartcard or PKCS#11 token, which this applet does not support.",
        (ClientAttentionType::AccessPerm, _) =>
            "openvpn3 asked for an access-permission decision, which this applet does not handle.",
        _ => {
            let mut reason = "Unsupported openvpn3 request: ".to_owned();
            reason.append(type_.name());
            reason.append("/");
            reason.append(group.name());
            reason.append(".");
            return AttentionRouting::Unsupported { reason };
        },
    };
    AttentionRouting::Unsupported { reason: reason.to_owned() }
}

/// Text that starts and ends with something visible has nothing to trim.
proof fn lemma_nothing_to_trim(s: Seq<char>)
    requires
        s.len() > 0,
        !crate::text::is_white(s.first()),
        !crate::text::is_white(s.last()),
    ensures
        trimmed(s) == s,
{
}

/// Whatever openvpn3 asks for, it is either prompted for or refused with a
/// reason that a person can read. Nothing but the four kinds of credentials is
/// ever prompted for.
pub proof fn law_routing_is_total(type_: ClientAttentionType, group: ClientAttentionGroup)
    ensures
        routing(type_, group) is Prompt <==> (type_ == ClientAttentionType::Credentials && (group
            == ClientAttentionGroup::UserPassword || group == ClientAttentionGroup::PkPassphrase
            || group == ClientAttentionGroup::ChallengeStatic || group
            == ClientAttentionGroup::ChallengeDynamic)),
        routing(type_, group) is Unsupported ==> trimmed(routing(type_, group)->reason).len() > 0,
{
    let reason = refusal(type_, group);
    reveal_strlit("This profile uses browser-based (web) authentication, which this applet does not support. Start it from a terminal with `openvpn3 session-start`.");
    reveal_strlit("This profile asked for HTTP proxy credentials, which this applet does not support.");
    reveal_strlit("This profile requires out-of-band approval to continue, which this applet cannot wait on. Start it from a terminal with `openvpn3 session-start`.");
    reveal_strlit("This profile requires a smartcard or PKCS#11 token, which this applet does not support.");
    reveal_strlit("openvpn3 asked for an access-permission decision, which this applet does not handle.");
    reveal_strlit("Unsupported openvpn3 request: ");
    reveal_strlit(".");
    if prompt_for(type_, group) is None {
        assert(reason.len() > 0);
        assert(reason.first() == 'T' || reason.first() == 'o' || reason.first() == 'U');
        assert(reason.last() == '.');
        lemma_nothing_to_trim(reason);
    }
}

/// One item drained from a session's user-input queue.
#[derive(Debug, Clone, PartialEq, Eq)]
pub struct InputRequest {
    pub type_: ClientAttentionType,
    pub group: ClientAttentionGroup,
    pub id: u32,
    /// Machine name, e.g. `username`.
    pub name: String,
    /// Human-facing text. For a dynamic challenge this *is* the question.
    pub description: String,
    pub hidden_input: bool,
}

/// A single field to render in the prompt.
#[derive(Debug, PartialEq, Eq)]
pub struct PromptField {
    pub id: u32,
    pub name: String,
    pub label: String,
    pub masked: bool,
}

/// A `PromptField` with its texts as sequences of characters.
pub struct PromptFieldView {
    pub id: u32,
    pub name: Seq<char>,
    pub label: Seq<char>,
    pub masked: bool,
}

impl View for PromptField {
    type V = PromptFieldView;

    open spec fn view(&self) -> PromptFieldView {
        PromptFieldView {
            id: self.id,
            name: self.name@,
            label: self.label@,
            masked: self.masked,
        }
    }
}

impl Clone for PromptField {
    fn clone(&self) -> (field: PromptField)
        ensures
            field@ == self@,
    {
        PromptField {
            id: self.id,
            name: self.name.clone(),
            label: self.label.clone(),
            masked: self.masked,
        }
    }
}

/// The field that a queued request becomes: labelled with its description, or
/// with its machine name where the description is blank.
pub open spec fn field_for(
    id: u32,
    name: Seq<char>,
    description: Seq<char>,
    hidden: bool,
) -> PromptFieldView {
    PromptFieldView {
        id,
        name,
        label: if trimmed(description).len() == 0 {
            name
        } else {
            description
        },
        masked: hidden,
    }
}

impl InputRequest {
    /// The field that asks for this item.
    pub fn to_field(&self) -> (field: PromptField)
        ensures
            field@ == field_for(self.id, self.name@, self.description@, self.hidden_input),
    {
        // openvpn3 does not always populate the description; falling back to the
        // machine name beats rendering an unlabelled box.
        let label = if trim(self.description.as_str()).is_empty() {
            self.name.clone()
        } else {
            self.description.clone()
        };
        PromptField { id: self.id, name: self.name.clone(), label, masked: self.hidden_input }
    }
}

/// The numbers that openvpn3 gives the kinds of attention.
pub proof fn law_attention_type_numbers(item: ClientAttentionType)
    ensures
        item == ClientAttentionType::Unset <==> item.wire() == 0,
        item == ClientAttentionType::Credentials <==> item.wire() == 1,
        item == ClientAttentionType::Pkcs11 <==> item.wire() == 2,
        item == ClientAttentionType::AccessPerm <==> item.wire() == 3,
        item.wire() <= 3,
{
}

/// Every kind of attention is named as openvpn3 names it.
pub proof fn law_attention_types_are_named()
    ensures
        ClientAttentionType::Unset.label() == "Unset"@,
        ClientAttentionType::Credentials.label() == "Credentials"@,
        ClientAttentionType::Pkcs11.label() == "Pkcs11"@,
        ClientAttentionType::AccessPerm.label() == "AccessPerm"@,
{
}

/// The numbers that openvpn3 gives the groups of requests.
pub proof fn law_attention_group_numbers(item: ClientAttentionGroup)
    ensures
        item == ClientAttentionGroup::Unset <==> item.wire() == 0,
        item == ClientAttentionGroup::UserPassword <==> item.wire() == 1,
        item == ClientAttentionGroup::HttpProxyCreds <==> item.wire() == 2,
        item == ClientAttentionGroup::PkPassphrase <==> item.wire() == 3,
        item == ClientAttentionGroup::ChallengeStatic <==> item.wire() == 4,
        item == ClientAttentionGroup::ChallengeDynamic <==> item.wire() == 5,
        item == ClientAttentionGroup::ChallengeAuthPending <==> item.wire() == 6,
        item == ClientAttentionGroup::Pkcs11Sign <==> item.wire() == 7,
        item == ClientAttentionGroup::Pkcs11Decrypt <==> item.wire() == 8,
        item == ClientAttentionGroup::OpenUrl <==> item.wire() == 9,
        item.wire() <= 9,
{
}

/// Every group of requests is named as openvpn3 names it.
pub proof fn law_attention_groups_are_named()
    ensures
        ClientAttentionGroup::Unset.label() == "Unset"@,
        ClientAttentionGroup::UserPassword.label() == "UserPassword"@,
        ClientAttentionGroup::HttpProxyCreds.label() == "HttpProxyCreds"@,
        ClientAttentionGroup::PkPassphrase.label() == "PkPassphrase"@,
        ClientAttentionGroup::ChallengeStatic.label() == "ChallengeStatic"@,
        ClientAttentionGroup::ChallengeDynamic.label() == "ChallengeDynamic"@,
        ClientAttentionGroup::ChallengeAuthPending.label() == "ChallengeAuthPending"@,
        ClientAttentionGroup::Pkcs11Sign.label() == "Pkcs11Sign"@,
        ClientAttentionGroup::Pkcs11Decrypt.label() == "Pkcs11Decrypt"@,
        ClientAttentionGroup::OpenUrl.label() == "OpenUrl"@,
{
}

/// Which requests open which prompt.
pub proof fn law_each_prompt_answers_its_requests(
    type_: ClientAttentionType,
    group: ClientAttentionGroup,
)
    ensures
        routing(type_, group) == AttentionRoutingView::Prompt(PromptKind::UserPassword) <==> type_
            == ClientAttentionType::Credentials && group == ClientAttentionGroup::UserPassword,
        routing(type_, group) == AttentionRoutingView::Prompt(PromptKind::PrivateKeyPassphrase)
            <==> type_ == ClientAttentionType::Credentials && group
            == ClientAttentionGroup::PkPassphrase,
        routing(type_, group) == AttentionRoutingView::Prompt(PromptKind::Challenge) <==> type_
            == ClientAttentionType::Credentials && (group == ClientAttentionGroup::ChallengeStatic
            || group == ClientAttentionGroup::ChallengeDynamic),
        routing(type_, group) matches AttentionRoutingView::Prompt(kind) ==> prompt_for(
            type_,
            group,
        ) == Some(kind),
        routing(type_, group) matches AttentionRoutingView::Unsupported { reason } ==> prompt_for(
            type_,
            group,
        ) is None && reason == refusal(type_, group),
{
}

/// What each refusal says. One that is foreseen by no other rule names the request.
pub proof fn law_refusals_say_what_was_asked(
    type_: ClientAttentionType,
    group: ClientAttentionGroup,
)
    requires
        routing(type_, group) is Unsupported,
    ensures
        type_ == ClientAttentionType::Pkcs11 ==> routing(type_, group)->reason
            == "This profile requires a smartcard or PKCS#11 token, which this applet does not support."@,
        type_ == ClientAttentionType::AccessPerm ==> routing(type_, group)->reason
            == "openvpn3 asked for an access-permission decision, which this applet does not handle."@,
        type_ == ClientAttentionType::Credentials && group == ClientAttentionGroup::OpenUrl
            ==> routing(type_, group)->reason
            == "This profile uses browser-based (web) authentication, which this applet does not support. Start it from a terminal with `openvpn3 session-start`."@,
        type_ == ClientAttentionType::Credentials && group == ClientAttentionGroup::HttpProxyCreds
            ==> routing(type_, group)->reason
            == "This profile asked for HTTP proxy credentials, which this applet does not support."@,
        type_ == ClientAttentionType::Credentials && group
            == ClientAttentionGroup::ChallengeAuthPending ==> routing(type_, group)->reason
            == "This profile requires out-of-band approval to continue, which this applet cannot wait on. Start it from a terminal with `openvpn3 session-start`."@,
        type_ == ClientAttentionType::Unset || (type_ == ClientAttentionType::Credentials && group
            != ClientAttentionGroup::OpenUrl && group != ClientAttentionGroup::HttpProxyCreds
            && group != ClientAttentionGroup::ChallengeAuthPending) ==> routing(
            type_,
            group,
        )->reason == "Unsupported openvpn3 request: "@ + type_.label() + "/"@ + group.label()
            + "."@,
{
}

/// A field asks for its own item and hides what is typed exactly where openvpn3 says
/// so. It is labelled with what openvpn3 says about it, unless that is blank.
pub proof fn law_fields_ask_for_their_item(
    id: u32,
    name: Seq<char>,
    description: Seq<char>,
    hidden: bool,
)
    ensures
        field_for(id, name, description, hidden).id == id,
        field_for(id, name, description, hidden).name == name,
        field_for(id, name, description, hidden).masked == hidden,
        (exists|i: int| 0 <= i < description.len() && !is_white(#[trigger] description[i]))
            ==> field_for(id, name, description, hidden).label == description,
        (forall|i: int| 0 <= i < description.len() ==> is_white(#[trigger] description[i]))
            ==> field_for(id, name, description, hidden).label == name,
{
    law_blank_text_trims_to_nothing(description);
}

/// A number that stands for no kind of attention is reported as it came.
pub proof fn law_unknown_attention_types_are_reported(value: u8)
    ensures
        ClientAttentionType::decoded(value) matches Err(unknown) ==> unknown.kind == "ClientAttentionType" && unknown.value
            == value && forall|item: ClientAttentionType| #[trigger] item.wire() != value,
{
}

/// A number that stands for no group of requests is reported as it came.
pub proof fn law_unknown_attention_groups_are_reported(value: u8)
    ensures
        ClientAttentionGroup::decoded(value) matches Err(unknown) ==> unknown.kind == "ClientAttentionGroup" && unknown.value
            == value && forall|item: ClientAttentionGroup| #[trigger] item.wire() != value,
{
}

} // verus!
