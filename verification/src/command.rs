use vstd::prelude::*;
use vstd::utf8::encode_utf8;

use crate::common::{ChatId, UserId};
use crate::error::{fail, failure, first_failure, Error};
use crate::json::JsonMap;
use crate::text::{
    concat2, has_control, scan_text, str_eq, text_limit_failure, validate_text_limit, TextLayout,
    TextPresence,
};

verus! {

pub const MAX_BOT_NAME_CHARS: usize = 64;

pub const MAX_BOT_DESCRIPTION_CHARS: usize = 512;

pub const MAX_BOT_SHORT_DESCRIPTION_CHARS: usize = 120;

pub const MAX_LANGUAGE_CODE_BYTES: usize = 35;

pub const MAX_BOT_COMMANDS: usize = 100;

/// Telegram bot command object.
#[derive(Debug)]
pub struct BotCommand {
    pub command: String,
    pub description: String,
    /// Fields of a response that this model does not name; never sent back.
    pub extra: JsonMap,
}

impl PartialEq for BotCommand {
    fn eq(&self, other: &Self) -> (r: bool) {
        str_eq(self.command.as_str(), other.command.as_str()) && str_eq(
            self.description.as_str(),
            other.description.as_str(),
        )
    }
}

impl vstd::std_specs::cmp::PartialEqSpecImpl for BotCommand {
    open spec fn obeys_eq_spec() -> bool {
        true
    }

    open spec fn eq_spec(&self, other: &Self) -> bool {
        self.command@ == other.command@ && self.description@ == other.description@
    }
}

impl Eq for BotCommand {

}

/// An ASCII lowercase letter, digit or `_`.
pub open spec fn is_command_byte(b: u8) -> bool {
    (0x61 <= b <= 0x7a) || (0x30 <= b <= 0x39) || b == 0x5f
}

/// Why a command name is refused; its length is counted in UTF-8 bytes.
pub open spec fn command_name_failure(command: Seq<char>) -> Option<Seq<char>> {
    let bytes = encode_utf8(command);
    if bytes.len() == 0 || bytes.len() > 32 {
        Some("command must be 1-32 characters"@)
    } else if !(forall|i: int| 0 <= i < bytes.len() ==> is_command_byte(#[trigger] bytes[i])) {
        Some("command must contain only lowercase ASCII letters, digits, or `_`"@)
    } else {
        None
    }
}

/// Why a command description is refused; its length is counted in characters.
pub open spec fn command_description_failure(description: Seq<char>) -> Option<Seq<char>> {
    if description.len() == 0 || description.len() > 256 {
        Some("command description must be 1-256 characters"@)
    } else if has_control(description) {
        Some("command description must not contain control characters"@)
    } else {
        None
    }
}

fn is_command_byte_exec(b: u8) -> (r: bool)
    ensures
        r == is_command_byte(b),
{
    (0x61 <= b && b <= 0x7a) || (0x30 <= b && b <= 0x39) || b == 0x5f
}

/// Checks a command name.
pub fn validate_bot_command_name(command: &str) -> (r: Result<(), Error>)
    ensures
        failure(r) == command_name_failure(command@),
{
    let bytes = command.as_bytes();
    let ghost b = encode_utf8(command@);
    assert(bytes@ == b);
    let n = bytes.len();
    if n == 0 || n > 32 {
        return fail("command must be 1-32 characters");
    }
    let mut i: usize = 0;
    while i < n
        invariant
            i <= n,
            n == bytes@.len(),
            bytes@ == b,
            b == encode_utf8(command@),
            1 <= n <= 32,
            forall|j: int| 0 <= j < i ==> is_command_byte(#[trigger] b[j]),
        decreases n - i,
    {
        if !is_command_byte_exec(bytes[i]) {
            assert(!is_command_byte(b[i as int]));
            return fail("command must contain only lowercase ASCII letters, digits, or `_`");
        }
        i = i + 1;
    }
    Ok(())
}

/// Checks a command description.
pub fn validate_bot_command_description(description: &str) -> (r: Result<(), Error>)
    ensures
        failure(r) == command_description_failure(description@),
{
    let scan = scan_text(description);
    if scan.chars == 0 || scan.chars > 256 {
        return fail("command description must be 1-256 characters");
    }
    if scan.control {
        return fail("command description must not contain control characters");
    }
    Ok(())
}

impl BotCommand {
    /// A command with a checked name and description.
    pub fn new(command: String, description: String) -> (r: Result<Self, Error>)
        ensures
            first_failure(command_name_failure(command@), command_description_failure(description@))
                is None ==> (r matches Ok(c) && c.command@ == command@ && c.description@
                == description@ && c.extra@.is_empty()),
            first_failure(command_name_failure(command@), command_description_failure(description@))
                matches Some(reason) ==> (r matches Err(Error::InvalidRequest { reason: e }) && e@
                == reason),
    {
        let res = validate_bot_command_name(command.as_str());
        if let Err(e) = res {
            return Err(e);
        }
        let res = validate_bot_command_description(description.as_str());
        if let Err(e) = res {
            return Err(e);
        }
        Ok(BotCommand { command, description, extra: JsonMap::new() })
    }
}

/// The reason reported for a command that repeats an earlier one.
pub open spec fn duplicate_command_reason(command: Seq<char>) -> Seq<char> {
    "duplicate bot command `"@ + command + "`"@
}

/// An earlier command of the list has the same name as the command at `i`.
pub open spec fn repeats_earlier(commands: Seq<BotCommand>, i: int) -> bool {
    exists|j: int| 0 <= j < i && #[trigger] commands[j].command@ == commands[i].command@
}

/// Why the command at `i` is refused, given that all earlier commands passed.
pub open spec fn command_entry_failure(commands: Seq<BotCommand>, i: int) -> Option<Seq<char>> {
    first_failure(
        command_name_failure(commands[i].command@),
        first_failure(
            command_description_failure(commands[i].description@),
            if repeats_earlier(commands, i) {
                Some(duplicate_command_reason(commands[i].command@))
            } else {
                None
            },
        ),
    )
}

/// The first refusal among the first `n` commands, in list order.
pub open spec fn command_prefix_failure(commands: Seq<BotCommand>, n: nat) -> Option<Seq<char>>
    decreases n,
{
    if n == 0 {
        None
    } else {
        first_failure(
            command_prefix_failure(commands, (n - 1) as nat),
            command_entry_failure(commands, n - 1),
        )
    }
}

/// Where the first `n` commands pass, no two of them share a name.
pub proof fn lemma_command_prefix_distinct(commands: Seq<BotCommand>, n: nat)
    requires
        n <= commands.len(),
        command_prefix_failure(commands, n) is None,
    ensures
        forall|a: int, b: int| 0 <= a < b < n ==> commands[a].command@ != commands[b].command@,
    decreases n,
{
    if n > 0 {
        lemma_command_prefix_distinct(commands, (n - 1) as nat);
        assert(!repeats_earlier(commands, n - 1));
        assert forall|a: int, b: int| 0 <= a < b < n implies commands[a].command@ != commands[b].command@ by {
            if b == n - 1 && commands[a].command@ == commands[b].command@ {
                assert(repeats_earlier(commands, n - 1));
            }
        }
    }
}

/// A command list that the checks accept holds between one and a hundred
/// commands, no two with the same name.
pub proof fn lemma_accepted_commands_distinct(commands: Seq<BotCommand>)
    requires
        command_list_failure(commands) is None,
    ensures
        1 <= commands.len() <= MAX_BOT_COMMANDS,
        forall|a: int, b: int| 0 <= a < b < commands.len() ==> commands[a].command@ != commands[b].command@,
{
    lemma_command_prefix_distinct(commands, commands.len());
}

/// A command list in which a name comes twice is refused, wherever the two stand.
pub proof fn lemma_repeated_command_refused(commands: Seq<BotCommand>, a: int, b: int)
    requires
        0 <= a < b < commands.len(),
        commands[a].command@ == commands[b].command@,
    ensures
        command_list_failure(commands) is Some,
{
    if command_list_failure(commands) is None {
        lemma_accepted_commands_distinct(commands);
    }
}

/// Where the first `n` commands have valid names and descriptions and no two
/// share a name, they pass.
pub proof fn lemma_command_prefix_passes(commands: Seq<BotCommand>, n: nat)
    requires
        n <= commands.len(),
        forall|i: int| 0 <= i < n ==> command_name_failure(#[trigger] commands[i].command@) is None
            && command_description_failure(commands[i].description@) is None,
        forall|a: int, b: int| 0 <= a < b < n ==> commands[a].command@ != commands[b].command@,
    ensures
        command_prefix_failure(commands, n) is None,
    decreases n,
{
    if n > 0 {
        lemma_command_prefix_passes(commands, (n - 1) as nat);
        assert(command_name_failure(commands[n - 1].command@) is None);
        assert(!repeats_earlier(commands, n - 1));
    }
}

/// A list of one to a hundred commands with valid names and descriptions, no
/// two sharing a name, is accepted.
pub proof fn lemma_distinct_commands_accepted(commands: Seq<BotCommand>)
    requires
        1 <= commands.len() <= MAX_BOT_COMMANDS,
        forall|i: int| 0 <= i < commands.len() ==> command_name_failure(#[trigger] commands[i].command@) is None
            && command_description_failure(commands[i].description@) is None,
        forall|a: int, b: int| 0 <= a < b < commands.len() ==> commands[a].command@ != commands[b].command@,
    ensures
        command_list_failure(commands) is None,
{
    lemma_command_prefix_passes(commands, commands.len());
}

/// Why a `setMyCommands` list is refused.
pub open spec fn command_list_failure(commands: Seq<BotCommand>) -> Option<Seq<char>> {
    if commands.len() == 0 {
        Some("setMyCommands requires at least one command"@)
    } else if commands.len() > MAX_BOT_COMMANDS {
        Some("setMyCommands accepts at most 100 commands"@)
    } else {
        command_prefix_failure(commands, commands.len())
    }
}

/// Whether `commands[i]` repeats one of `commands[0..i]`.
fn has_earlier_duplicate(commands: &[BotCommand], i: usize) -> (r: bool)
    requires
        i < commands@.len(),
    ensures
        r == repeats_earlier(commands@, i as int),
{
    let mut j: usize = 0;
    while j < i
        invariant
            j <= i,
            i < commands@.len(),
            forall|k: int| 0 <= k < j ==> commands@[k].command@ != commands@[i as int].command@,
        decreases i - j,
    {
        if str_eq(commands[j].command.as_str(), commands[i].command.as_str()) {
            assert(commands@[j as int].command@ == commands@[i as int].command@);
            return true;
        }
        j = j + 1;
    }
    false
}

/// Checks a whole `setMyCommands` list: its size, every command in order, and
/// that no name occurs twice.
pub fn validate_bot_commands(commands: &[BotCommand]) -> (r: Result<(), Error>)
    ensures
        failure(r) == command_list_failure(commands@),
{
    if commands.len() == 0 {
        return fail("setMyCommands requires at least one command");
    }
    if commands.len() > MAX_BOT_COMMANDS {
        return fail("setMyCommands accepts at most 100 commands");
    }
    let mut i: usize = 0;
    while i < commands.len()
        invariant
            i <= commands@.len(),
            0 < commands@.len() <= MAX_BOT_COMMANDS,
            command_prefix_failure(commands@, i as nat) is None,
        decreases commands@.len() - i,
    {
        let res = validate_bot_command_name(commands[i].command.as_str());
        if res.is_err() {
            assert(command_prefix_failure(commands@, (i + 1) as nat) == failure(res));
            proof { lemma_prefix_failure_stays(commands@, (i + 1) as nat, commands@.len()); }
            return res;
        }
        let res = validate_bot_command_description(commands[i].description.as_str());
        if res.is_err() {
            assert(command_prefix_failure(commands@, (i + 1) as nat) == failure(res));
            proof { lemma_prefix_failure_stays(commands@, (i + 1) as nat, commands@.len()); }
            return res;
        }
        if has_earlier_duplicate(commands, i) {
            let head = concat2("duplicate bot command `", commands[i].command.as_str());
            let reason = concat2(head.as_str(), "`");
            assert(command_prefix_failure(commands@, (i + 1) as nat) == Some(reason@));
            proof { lemma_prefix_failure_stays(commands@, (i + 1) as nat, commands@.len()); }
            return Err(Error::InvalidRequest { reason });
        }
        i = i + 1;
    }
    Ok(())
}

/// Once a prefix of the list has failed, every longer prefix reports that failure.
pub proof fn lemma_prefix_failure_stays(commands: Seq<BotCommand>, n: nat, m: nat)
    requires
        n <= m,
        command_prefix_failure(commands, n) is Some,
    ensures
        command_prefix_failure(commands, m) == command_prefix_failure(commands, n),
    decreases m - n,
{
    if n < m {
        lemma_prefix_failure_stays(commands, n, (m - 1) as nat);
    }
}

/// An ASCII letter, digit or `-`.
pub open spec fn is_language_code_byte(b: u8) -> bool {
    (0x30 <= b <= 0x39) || (0x41 <= b <= 0x5a) || (0x61 <= b <= 0x7a) || b == 0x2d
}

/// The code holds an empty subtag: it starts or ends with `-`, or holds `--`.
pub open spec fn has_empty_subtag(bytes: Seq<u8>) -> bool {
    ||| bytes[0] == 0x2du8
    ||| bytes[bytes.len() - 1] == 0x2du8
    ||| exists|i: int| 0 <= i < bytes.len() - 1 && #[trigger] bytes[i] == 0x2du8 && bytes[i + 1] == 0x2du8
}

/// Why a language code is refused. The empty code is accepted.
pub open spec fn language_code_failure(code: Seq<char>) -> Option<Seq<char>> {
    let bytes = encode_utf8(code);
    if bytes.len() > MAX_LANGUAGE_CODE_BYTES {
        Some("language_code must be at most 35 bytes"@)
    } else if bytes.len() == 0 {
        None
    } else if !(forall|i: int| 0 <= i < bytes.len() ==> is_language_code_byte(#[trigger] bytes[i])) {
        Some("language_code must contain only ASCII letters, digits, or `-`"@)
    } else if has_empty_subtag(bytes) {
        Some("language_code must not contain empty subtags"@)
    } else {
        None
    }
}

fn is_language_code_byte_exec(b: u8) -> (r: bool)
    ensures
        r == is_language_code_byte(b),
{
    (0x30 <= b && b <= 0x39) || (0x41 <= b && b <= 0x5a) || (0x61 <= b && b <= 0x7a) || b == 0x2d
}

/// Checks an IETF language tag as Telegram takes it.
pub fn validate_language_code_value(language_code: &str) -> (r: Result<(), Error>)
    ensures
        failure(r) == language_code_failure(language_code@),
{
    let bytes = language_code.as_bytes();
    let ghost b = encode_utf8(language_code@);
    assert(bytes@ == b);
    let n = bytes.len();
    if n > MAX_LANGUAGE_CODE_BYTES {
        return fail("language_code must be at most 35 bytes");
    }
    if n == 0 {
        return Ok(());
    }
    let mut i: usize = 0;
    while i < n
        invariant
            i <= n,
            n == bytes@.len(),
            bytes@ == b,
            b == encode_utf8(language_code@),
            1 <= n <= MAX_LANGUAGE_CODE_BYTES,
            forall|j: int| 0 <= j < i ==> is_language_code_byte(#[trigger] b[j]),
        decreases n - i,
    {
        if !is_language_code_byte_exec(bytes[i]) {
            assert(!is_language_code_byte(b[i as int]));
            return fail("language_code must contain only ASCII letters, digits, or `-`");
        }
        i = i + 1;
    }
    if bytes[0] == 0x2du8 || bytes[n - 1] == 0x2du8 {
        return fail("language_code must not contain empty subtags");
    }
    let mut k: usize = 0;
    while k + 1 < n
        invariant
            k + 1 <= n,
            n == bytes@.len(),
            bytes@ == b,
            b == encode_utf8(language_code@),
            1 <= n <= MAX_LANGUAGE_CODE_BYTES,
            forall|j: int| 0 <= j < n ==> is_language_code_byte(#[trigger] b[j]),
            b[0] != 0x2du8,
            b[n - 1] != 0x2du8,
            forall|j: int| 0 <= j < k ==> !(#[trigger] b[j] == 0x2du8 && b[j + 1] == 0x2du8),
        decreases n - k,
    {
        if bytes[k] == 0x2du8 && bytes[k + 1] == 0x2du8 {
            assert(b[k as int] == 0x2du8 && b[k + 1] == 0x2du8);
            return fail("language_code must not contain empty subtags");
        }
        k = k + 1;
    }
    Ok(())
}

/// Why an optional language code is refused.
pub open spec fn language_code_field_failure(code: Option<String>) -> Option<Seq<char>> {
    match code {
        Some(c) => language_code_failure(c@),
        None => None,
    }
}

/// Checks a language code where one is given.
pub fn validate_language_code_field(language_code: &Option<String>) -> (r: Result<(), Error>)
    ensures
        failure(r) == language_code_field_failure(*language_code),
{
    match language_code {
        Some(code) => validate_language_code_value(code.as_str()),
        None => Ok(()),
    }
}

/// Why an optional profile text is refused: it may be empty, but not too long
/// nor hold control characters that its layout forbids.
pub open spec fn optional_text_failure(
    field: Seq<char>,
    value: Option<String>,
    layout: TextLayout,
    max_chars: usize,
) -> Option<Seq<char>> {
    match value {
        Some(v) => text_limit_failure(field, v@, TextPresence::AllowEmpty, layout, max_chars),
        None => None,
    }
}

fn validate_optional_text(
    field: &str,
    value: &Option<String>,
    layout: TextLayout,
    max_chars: usize,
) -> (r: Result<(), Error>)
    ensures
        failure(r) == optional_text_failure(field@, *value, layout, max_chars),
{
    match value {
        Some(v) => validate_text_limit(field, v.as_str(), TextPresence::AllowEmpty, layout, max_chars),
        None => Ok(()),
    }
}

/// Scope for bot command settings.
#[derive(Clone, Debug, PartialEq, Eq)]
pub enum BotCommandScope {
    Default,
    AllPrivateChats,
    AllGroupChats,
    AllChatAdministrators,
    Chat { chat_id: ChatId },
    ChatAdministrators { chat_id: ChatId },
    ChatMember { chat_id: ChatId, user_id: UserId },
}

impl BotCommandScope {
    /// The `type` tag Telegram uses for this scope.
    pub fn kind_name(&self) -> (r: &'static str)
        ensures
            r@ == scope_kind_name(*self),
    {
        match self {
            BotCommandScope::Default => "default",
            BotCommandScope::AllPrivateChats => "all_private_chats",
            BotCommandScope::AllGroupChats => "all_group_chats",
            BotCommandScope::AllChatAdministrators => "all_chat_administrators",
            BotCommandScope::Chat { .. } => "chat",
            BotCommandScope::ChatAdministrators { .. } => "chat_administrators",
            BotCommandScope::ChatMember { .. } => "chat_member",
        }
    }
}

pub open spec fn scope_kind_name(scope: BotCommandScope) -> Seq<char> {
    match scope {
        BotCommandScope::Default => "default"@,
        BotCommandScope::AllPrivateChats => "all_private_chats"@,
        BotCommandScope::AllGroupChats => "all_group_chats"@,
        BotCommandScope::AllChatAdministrators => "all_chat_administrators"@,
        BotCommandScope::Chat { .. } => "chat"@,
        BotCommandScope::ChatAdministrators { .. } => "chat_administrators"@,
        BotCommandScope::ChatMember { .. } => "chat_member"@,
    }
}

/// `setMyCommands` request.
#[derive(Debug)]
pub struct SetMyCommandsRequest {
    pub commands: Vec<BotCommand>,
    pub scope: Option<BotCommandScope>,
    pub language_code: Option<String>,
}

/// Why a `SetMyCommandsRequest` is refused.
pub open spec fn set_my_commands_failure(r: SetMyCommandsRequest) -> Option<Seq<char>> {
    first_failure(command_list_failure(r.commands@), language_code_field_failure(r.language_code))
}

impl SetMyCommandsRequest {
    /// A request for a checked command list, with no scope and no language.
    pub fn new(commands: Vec<BotCommand>) -> (r: Result<Self, Error>)
        ensures
            command_list_failure(commands@) is None ==> (r matches Ok(req) && req.commands@
                == commands@ && req.scope is None && req.language_code is None),
            command_list_failure(commands@) matches Some(reason) ==> (r matches Err(
                Error::InvalidRequest { reason: e },
            ) && e@ == reason),
    {
        let res = validate_bot_commands(commands.as_slice());
        if let Err(e) = res {
            return Err(e);
        }
        Ok(SetMyCommandsRequest { commands, scope: None, language_code: None })
    }

    pub fn scope(self, scope: BotCommandScope) -> (r: Self)
        ensures
            r.scope == Some(scope),
            r.commands@ == self.commands@,
            r.language_code == self.language_code,
    {
        SetMyCommandsRequest { scope: Some(scope), ..self }
    }

    /// Sets a checked language code.
    pub fn language_code(self, language_code: String) -> (r: Result<Self, Error>)
        ensures
            language_code_failure(language_code@) is None ==> (r matches Ok(req) && req.commands@
                == self.commands@ && req.scope == self.scope && req.language_code == Some(
                language_code,
            )),
            language_code_failure(language_code@) matches Some(reason) ==> (r matches Err(
                Error::InvalidRequest { reason: e },
            ) && e@ == reason),
    {
        let res = validate_language_code_value(language_code.as_str());
        if let Err(e) = res {
            return Err(e);
        }
        Ok(SetMyCommandsRequest { language_code: Some(language_code), ..self })
    }

    pub fn validate(&self) -> (r: Result<(), Error>)
        ensures
            failure(r) == set_my_commands_failure(*self),
    {
        let res = validate_bot_commands(self.commands.as_slice());
        if res.is_err() {
            return res;
        }
        validate_language_code_field(&self.language_code)
    }
}

/// `getMyCommands` request.
#[derive(Clone, Debug, Default)]
pub struct GetMyCommandsRequest {
    pub scope: Option<BotCommandScope>,
    pub language_code: Option<String>,
}

impl GetMyCommandsRequest {
    pub fn validate(&self) -> (r: Result<(), Error>)
        ensures
            failure(r) == language_code_field_failure(self.language_code),
    {
        validate_language_code_field(&self.language_code)
    }
}

/// `deleteMyCommands` request.
#[derive(Clone, Debug, Default)]
pub struct DeleteMyCommandsRequest {
    pub scope: Option<BotCommandScope>,
    pub language_code: Option<String>,
}

impl DeleteMyCommandsRequest {
    pub fn validate(&self) -> (r: Result<(), Error>)
        ensures
            failure(r) == language_code_field_failure(self.language_code),
    {
        validate_language_code_field(&self.language_code)
    }
}

/// `setMyName` request.
#[derive(Clone, Debug, Default)]
pub struct SetMyNameRequest {
    pub name: Option<String>,
    pub language_code: Option<String>,
}

/// Why a `SetMyNameRequest` is refused.
pub open spec fn set_my_name_failure(r: SetMyNameRequest) -> Option<Seq<char>> {
    first_failure(
        optional_text_failure("name"@, r.name, TextLayout::SingleLine, MAX_BOT_NAME_CHARS),
        language_code_field_failure(r.language_code),
    )
}

impl SetMyNameRequest {
    pub fn validate(&self) -> (r: Result<(), Error>)
        ensures
            failure(r) == set_my_name_failure(*self),
    {
        let res = validate_optional_text(
            "name",
            &self.name,
            TextLayout::SingleLine,
            MAX_BOT_NAME_CHARS,
        );
        if res.is_err() {
            return res;
        }
        validate_language_code_field(&self.language_code)
    }
}

/// `getMyName` request.
#[derive(Clone, Debug, Default)]
pub struct GetMyNameRequest {
    pub language_code: Option<String>,
}

impl GetMyNameRequest {
    pub fn validate(&self) -> (r: Result<(), Error>)
        ensures
            failure(r) == language_code_field_failure(self.language_code),
    {
        validate_language_code_field(&self.language_code)
    }
}

/// `setMyDescription` request.
#[derive(Clone, Debug, Default)]
pub struct SetMyDescriptionRequest {
    pub description: Option<String>,
    pub language_code: Option<String>,
}

/// Why a `SetMyDescriptionRequest` is refused.
pub open spec fn set_my_description_failure(r: SetMyDescriptionRequest) -> Option<Seq<char>> {
    first_failure(
        optional_text_failure(
            "description"@,
            r.description,
            TextLayout::MultiLine,
            MAX_BOT_DESCRIPTION_CHARS,
        ),
        language_code_field_failure(r.language_code),
    )
}

impl SetMyDescriptionRequest {
    pub fn validate(&self) -> (r: Result<(), Error>)
        ensures
            failure(r) == set_my_description_failure(*self),
    {
        let res = validate_optional_text(
            "description",
            &self.description,
            TextLayout::MultiLine,
            MAX_BOT_DESCRIPTION_CHARS,
        );
        if res.is_err() {
            return res;
        }
        validate_language_code_field(&self.language_code)
    }
}

/// `getMyDescription` request.
#[derive(Clone, Debug, Default)]
pub struct GetMyDescriptionRequest {
    pub language_code: Option<String>,
}

impl GetMyDescriptionRequest {
    pub fn validate(&self) -> (r: Result<(), Error>)
        ensures
            failure(r) == language_code_field_failure(self.language_code),
    {
        validate_language_code_field(&self.language_code)
    }
}

/// `setMyShortDescription` request.
#[derive(Clone, Debug, Default)]
pub struct SetMyShortDescriptionRequest {
    pub short_description: Option<String>,
    pub language_code: Option<String>,
}

/// Why a `SetMyShortDescriptionRequest` is refused.
pub open spec fn set_my_short_description_failure(r: SetMyShortDescriptionRequest) -> Option<
    Seq<char>,
> {
    first_failure(
        optional_text_failure(
            "short_description"@,
            r.short_description,
            TextLayout::SingleLine,
            MAX_BOT_SHORT_DESCRIPTION_CHARS,
        ),
        language_code_field_failure(r.language_code),
    )
}

impl SetMyShortDescriptionRequest {
    pub fn validate(&self) -> (r: Result<(), Error>)
        ensures
            failure(r) == set_my_short_description_failure(*self),
    {
        let res = validate_optional_text(
            "short_description",
            &self.short_description,
            TextLayout::SingleLine,
            MAX_BOT_SHORT_DESCRIPTION_CHARS,
        );
        if res.is_err() {
            return res;
        }
        validate_language_code_field(&self.language_code)
    }
}

/// `getMyShortDescription` request.
#[derive(Clone, Debug, Default)]
pub struct GetMyShortDescriptionRequest {
    pub language_code: Option<String>,
}

impl GetMyShortDescriptionRequest {
    pub fn validate(&self) -> (r: Result<(), Error>)
        ensures
            failure(r) == language_code_field_failure(self.language_code),
    {
        validate_language_code_field(&self.language_code)
    }
}

/// The bot's name, as Telegram returns it.
#[derive(Debug)]
pub struct BotName {
    pub name: String,
    pub extra: JsonMap,
}

/// The bot's description, as Telegram returns it.
#[derive(Debug)]
pub struct BotDescription {
    pub description: String,
    pub extra: JsonMap,
}

/// The bot's short description, as Telegram returns it.
#[derive(Debug)]
pub struct BotShortDescription {
    pub short_description: String,
    pub extra: JsonMap,
}

} // verus!
