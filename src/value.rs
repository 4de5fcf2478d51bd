//! Received option values and their coercion into typed field values.
use vstd::prelude::*;

use crate::channel::ChannelType;
use crate::command::CommandOptionValue;
use crate::error::ParseOptionErrorType;

verus! {

/// Kind tag of a command option on the wire.
#[derive(Debug, Clone, Copy, PartialEq, Eq, Structural)]
pub enum CommandOptionType {
    SubCommand,
    SubCommandGroup,
    String,
    Integer,
    Boolean,
    User,
    Channel,
    Role,
    Mentionable,
    Number,
    Attachment,
}

/// The name of an option kind in messages.
pub open spec fn option_type_name(k: CommandOptionType) -> Seq<char> {
    match k {
        CommandOptionType::SubCommand => "SubCommand"@,
        CommandOptionType::SubCommandGroup => "SubCommandGroup"@,
        CommandOptionType::String => "String"@,
        CommandOptionType::Integer => "Integer"@,
        CommandOptionType::Boolean => "Boolean"@,
        CommandOptionType::User => "User"@,
        CommandOptionType::Channel => "Channel"@,
        CommandOptionType::Role => "Role"@,
        CommandOptionType::Mentionable => "Mentionable"@,
        CommandOptionType::Number => "Number"@,
        CommandOptionType::Attachment => "Attachment"@,
    }
}

impl CommandOptionType {
    /// The kind's name in messages.
    pub fn kind(&self) -> (r: &'static str)
        ensures
            r@ == option_type_name(*self),
    {
        match self {
            CommandOptionType::SubCommand => "SubCommand",
            CommandOptionType::SubCommandGroup => "SubCommandGroup",
            CommandOptionType::String => "String",
            CommandOptionType::Integer => "Integer",
            CommandOptionType::Boolean => "Boolean",
            CommandOptionType::User => "User",
            CommandOptionType::Channel => "Channel",
            CommandOptionType::Role => "Role",
            CommandOptionType::Mentionable => "Mentionable",
            CommandOptionType::Number => "Number",
            CommandOptionType::Attachment => "Attachment",
        }
    }
}

/// A received option value.
#[derive(Debug)]
pub enum OptionValue {
    String(String),
    Integer(i64),
    Boolean(bool),
    User(u64),
    Channel(u64),
    Role(u64),
    Mentionable(u64),
    Attachment(u64),
    /// A floating-point value, as its decimal text. The library does not
    /// compare floating-point values.
    Number(String),
    /// The partial value of the field being completed, and its kind.
    Focused(String, CommandOptionType),
    SubCommand(Vec<CommandDataOption>),
    SubCommandGroup(Vec<CommandDataOption>),
}

/// One received option: its name and value.
#[derive(Debug)]
pub struct CommandDataOption {
    pub name: String,
    pub value: OptionValue,
}

/// The wire kind of a received value.
pub open spec fn kind_of(v: OptionValue) -> CommandOptionType {
    match v {
        OptionValue::String(_) => CommandOptionType::String,
        OptionValue::Integer(_) => CommandOptionType::Integer,
        OptionValue::Boolean(_) => CommandOptionType::Boolean,
        OptionValue::User(_) => CommandOptionType::User,
        OptionValue::Channel(_) => CommandOptionType::Channel,
        OptionValue::Role(_) => CommandOptionType::Role,
        OptionValue::Mentionable(_) => CommandOptionType::Mentionable,
        OptionValue::Attachment(_) => CommandOptionType::Attachment,
        OptionValue::Number(_) => CommandOptionType::Number,
        OptionValue::Focused(_, k) => k,
        OptionValue::SubCommand(_) => CommandOptionType::SubCommand,
        OptionValue::SubCommandGroup(_) => CommandOptionType::SubCommandGroup,
    }
}

impl OptionValue {
    pub fn kind(&self) -> (r: CommandOptionType)
        ensures
            r == kind_of(*self),
    {
        match self {
            OptionValue::String(_) => CommandOptionType::String,
            OptionValue::Integer(_) => CommandOptionType::Integer,
            OptionValue::Boolean(_) => CommandOptionType::Boolean,
            OptionValue::User(_) => CommandOptionType::User,
            OptionValue::Channel(_) => CommandOptionType::Channel,
            OptionValue::Role(_) => CommandOptionType::Role,
            OptionValue::Mentionable(_) => CommandOptionType::Mentionable,
            OptionValue::Attachment(_) => CommandOptionType::Attachment,
            OptionValue::Number(_) => CommandOptionType::Number,
            OptionValue::Focused(_, k) => *k,
            OptionValue::SubCommand(_) => CommandOptionType::SubCommand,
            OptionValue::SubCommandGroup(_) => CommandOptionType::SubCommandGroup,
        }
    }
}

/// Entities resolved by the platform, keyed by their identifier. The library
/// only looks keys up.
#[derive(Debug)]
pub struct ResolvedData {
    pub users: Vec<u64>,
    pub members: Vec<u64>,
    pub roles: Vec<u64>,
    pub channels: Vec<(u64, ChannelType)>,
    pub attachments: Vec<u64>,
}

/// Constraints a field declares on its values.
#[derive(Debug)]
pub struct CommandOptionData {
    pub channel_types: Option<Vec<ChannelType>>,
    pub max_value: Option<CommandOptionValue>,
    pub min_value: Option<CommandOptionValue>,
    pub max_length: Option<u16>,
    pub min_length: Option<u16>,
}

/// The constraints of a [`CommandOptionData`], with the channel types as a
/// sequence.
pub ghost struct OptionDataView {
    pub channel_types: Option<Seq<ChannelType>>,
    pub max_value: Option<CommandOptionValue>,
    pub min_value: Option<CommandOptionValue>,
    pub max_length: Option<u16>,
    pub min_length: Option<u16>,
}

impl View for CommandOptionData {
    type V = OptionDataView;

    open spec fn view(&self) -> OptionDataView {
        OptionDataView {
            channel_types: match self.channel_types {
                Some(l) => Some(l@),
                None => None,
            },
            max_value: self.max_value,
            min_value: self.min_value,
            max_length: self.max_length,
            min_length: self.min_length,
        }
    }
}

/// No constraint at all.
pub open spec fn unconstrained_view() -> OptionDataView {
    OptionDataView {
        channel_types: None,
        max_value: None,
        min_value: None,
        max_length: None,
        min_length: None,
    }
}

impl CommandOptionData {
    /// No constraint at all.
    pub fn unconstrained() -> (r: CommandOptionData)
        ensures
            r@ == unconstrained_view(),
    {
        CommandOptionData {
            channel_types: None,
            max_value: None,
            min_value: None,
            max_length: None,
            min_length: None,
        }
    }
}

/// The type of value a field holds.
#[derive(Debug, Clone, Copy, PartialEq, Eq, Structural)]
pub enum ValueType {
    String,
    Integer,
    /// A floating-point number, passed on as its text; its bounds are not
    /// checked by the library.
    Number,
    Boolean,
    UserId,
    ChannelId,
    RoleId,
    MentionableId,
    AttachmentId,
    /// A resolved user, with whether member data was resolved too.
    User,
    /// A resolved channel, checked against the declared channel types.
    Channel,
    Role,
    /// A resolved user or role.
    Mentionable,
    Attachment,
}

/// The option kind that a value type is registered with.
pub open spec fn option_type_of(t: ValueType) -> CommandOptionType {
    match t {
        ValueType::String => CommandOptionType::String,
        ValueType::Integer => CommandOptionType::Integer,
        ValueType::Number => CommandOptionType::Number,
        ValueType::Boolean => CommandOptionType::Boolean,
        ValueType::UserId | ValueType::User => CommandOptionType::User,
        ValueType::ChannelId | ValueType::Channel => CommandOptionType::Channel,
        ValueType::RoleId | ValueType::Role => CommandOptionType::Role,
        ValueType::MentionableId | ValueType::Mentionable => CommandOptionType::Mentionable,
        ValueType::AttachmentId | ValueType::Attachment => CommandOptionType::Attachment,
    }
}

impl ValueType {
    pub fn option_type(&self) -> (r: CommandOptionType)
        ensures
            r == option_type_of(*self),
    {
        match self {
            ValueType::String => CommandOptionType::String,
            ValueType::Integer => CommandOptionType::Integer,
            ValueType::Number => CommandOptionType::Number,
            ValueType::Boolean => CommandOptionType::Boolean,
            ValueType::UserId | ValueType::User => CommandOptionType::User,
            ValueType::ChannelId | ValueType::Channel => CommandOptionType::Channel,
            ValueType::RoleId | ValueType::Role => CommandOptionType::Role,
            ValueType::MentionableId | ValueType::Mentionable => CommandOptionType::Mentionable,
            ValueType::AttachmentId | ValueType::Attachment => CommandOptionType::Attachment,
        }
    }
}

/// A resolved user.
#[derive(Debug, Clone, Copy, PartialEq, Eq, Structural)]
pub struct ResolvedUser {
    pub id: u64,
    /// Whether member data was resolved for the user.
    pub member: bool,
}

/// A resolved mentionable: a user or a role.
#[derive(Debug, Clone, Copy, PartialEq, Eq, Structural)]
pub enum ResolvedMentionable {
    User(ResolvedUser),
    Role(u64),
}

impl ResolvedMentionable {
    /// The identifier of the mentionable.
    pub fn id(&self) -> (r: u64)
        ensures
            r == match *self {
                ResolvedMentionable::User(u) => u.id,
                ResolvedMentionable::Role(id) => id,
            },
    {
        match self {
            ResolvedMentionable::User(u) => u.id,
            ResolvedMentionable::Role(id) => *id,
        }
    }
}

/// A typed field value.
#[derive(Debug, PartialEq, Eq)]
pub enum ParsedValue {
    String(String),
    Integer(i64),
    Number(String),
    Boolean(bool),
    UserId(u64),
    ChannelId(u64),
    RoleId(u64),
    MentionableId(u64),
    AttachmentId(u64),
    User(ResolvedUser),
    Channel { id: u64, kind: ChannelType },
    Role(u64),
    Mentionable(ResolvedMentionable),
    Attachment(u64),
}

/// Whether `id` is in `ids`.
pub open spec fn has_id(ids: Seq<u64>, id: u64) -> bool {
    exists|i: int| 0 <= i < ids.len() && ids[i] == id
}

/// The type of the first resolved channel with identifier `id`.
pub open spec fn channel_lookup(channels: Seq<(u64, ChannelType)>, id: u64) -> Option<ChannelType>
    decreases channels.len(),
{
    if channels.len() == 0 {
        None
    } else if channels[0].0 == id {
        Some(channels[0].1)
    } else {
        channel_lookup(channels.drop_first(), id)
    }
}

pub open spec fn user_known(r: Option<ResolvedData>, id: u64) -> bool {
    r matches Some(d) && has_id(d.users@, id)
}

pub open spec fn member_known(r: Option<ResolvedData>, id: u64) -> bool {
    r matches Some(d) && has_id(d.members@, id)
}

pub open spec fn role_known(r: Option<ResolvedData>, id: u64) -> bool {
    r matches Some(d) && has_id(d.roles@, id)
}

pub open spec fn attachment_known(r: Option<ResolvedData>, id: u64) -> bool {
    r matches Some(d) && has_id(d.attachments@, id)
}

pub open spec fn channel_known(r: Option<ResolvedData>, id: u64) -> Option<ChannelType> {
    match r {
        Some(d) => channel_lookup(d.channels@, id),
        None => None,
    }
}

/// Whether a string value lies within the declared length bounds, in
/// characters.
pub open spec fn length_in_bounds(s: Seq<char>, data: OptionDataView) -> bool {
    &&& (data.min_length matches Some(m) ==> s.len() >= m)
    &&& (data.max_length matches Some(m) ==> s.len() <= m)
}

/// Whether an integer value lies within the declared integer bounds; a
/// floating-point bound does not apply to integers.
pub open spec fn integer_in_bounds(i: i64, data: OptionDataView) -> bool {
    &&& (data.min_value matches Some(CommandOptionValue::Integer(m)) ==> i >= m)
    &&& (data.max_value matches Some(CommandOptionValue::Integer(m)) ==> i <= m)
}

/// Whether a channel type is allowed by the declared channel types.
pub open spec fn channel_allowed(kind: ChannelType, data: OptionDataView) -> bool {
    match data.channel_types {
        Some(l) => l.contains(kind),
        None => true,
    }
}

/// The value coercion of a received value into a value type.
pub open spec fn coerce(t: ValueType, v: OptionValue, data: OptionDataView, r: Option<ResolvedData>) -> Result<ParsedValue, ParseOptionErrorType> {
    match (t, v) {
        (ValueType::String, OptionValue::String(s)) => if length_in_bounds(s@, data) {
            Ok(ParsedValue::String(s))
        } else {
            Err(ParseOptionErrorType::StringOutOfRange(s))
        },
        (ValueType::Integer, OptionValue::Integer(i)) => if integer_in_bounds(i, data) {
            Ok(ParsedValue::Integer(i))
        } else {
            Err(ParseOptionErrorType::IntegerOutOfRange(i))
        },
        (ValueType::Number, OptionValue::Number(t)) => Ok(ParsedValue::Number(t)),
        (ValueType::Boolean, OptionValue::Boolean(b)) => Ok(ParsedValue::Boolean(b)),
        (ValueType::UserId, OptionValue::User(id)) => Ok(ParsedValue::UserId(id)),
        (ValueType::ChannelId, OptionValue::Channel(id)) => Ok(ParsedValue::ChannelId(id)),
        (ValueType::RoleId, OptionValue::Role(id)) => Ok(ParsedValue::RoleId(id)),
        (ValueType::MentionableId, OptionValue::Mentionable(id)) => Ok(ParsedValue::MentionableId(id)),
        (ValueType::AttachmentId, OptionValue::Attachment(id)) => Ok(ParsedValue::AttachmentId(id)),
        (ValueType::User, OptionValue::User(id)) => if user_known(r, id) {
            Ok(ParsedValue::User(ResolvedUser { id, member: member_known(r, id) }))
        } else {
            Err(ParseOptionErrorType::LookupFailed(id))
        },
        (ValueType::Channel, OptionValue::Channel(id)) => match channel_known(r, id) {
            None => Err(ParseOptionErrorType::LookupFailed(id)),
            Some(kind) => if channel_allowed(kind, data) {
                Ok(ParsedValue::Channel { id, kind })
            } else {
                Err(ParseOptionErrorType::InvalidChannelType(kind))
            },
        },
        (ValueType::Role, OptionValue::Role(id)) => if role_known(r, id) {
            Ok(ParsedValue::Role(id))
        } else {
            Err(ParseOptionErrorType::LookupFailed(id))
        },
        (ValueType::Mentionable, OptionValue::Mentionable(id)) => if user_known(r, id) {
            Ok(ParsedValue::Mentionable(ResolvedMentionable::User(ResolvedUser { id, member: member_known(r, id) })))
        } else if role_known(r, id) {
            Ok(ParsedValue::Mentionable(ResolvedMentionable::Role(id)))
        } else {
            Err(ParseOptionErrorType::LookupFailed(id))
        },
        (ValueType::Attachment, OptionValue::Attachment(id)) => if attachment_known(r, id) {
            Ok(ParsedValue::Attachment(id))
        } else {
            Err(ParseOptionErrorType::LookupFailed(id))
        },
        (_, other) => Err(ParseOptionErrorType::InvalidType(kind_of(other))),
    }
}

fn contains_id(ids: &Vec<u64>, id: u64) -> (r: bool)
    ensures
        r == has_id(ids@, id),
{
    let mut i: usize = 0;
    while i < ids.len()
        invariant
            i <= ids@.len(),
            forall|j: int| 0 <= j < i ==> ids@[j] != id,
        decreases ids@.len() - i,
    {
        if ids[i] == id {
            return true;
        }
        i += 1;
    }
    false
}

fn find_channel(channels: &Vec<(u64, ChannelType)>, id: u64) -> (r: Option<ChannelType>)
    ensures
        r == channel_lookup(channels@, id),
{
    let mut i: usize = 0;
    proof {
        assert(channels@.subrange(0, channels@.len() as int) =~= channels@);
    }
    while i < channels.len()
        invariant
            i <= channels@.len(),
            channel_lookup(channels@, id) == channel_lookup(channels@.subrange(i as int, channels@.len() as int), id),
        decreases channels@.len() - i,
    {
        proof {
            assert(channels@.subrange(i as int, channels@.len() as int).drop_first()
                =~= channels@.subrange(i + 1, channels@.len() as int));
        }
        if channels[i].0 == id {
            return Some(channels[i].1);
        }
        i += 1;
    }
    None
}

fn lookup_user(r: &Option<ResolvedData>, id: u64) -> (b: bool)
    ensures
        b == user_known(*r, id),
{
    match r {
        Some(d) => contains_id(&d.users, id),
        None => false,
    }
}

fn lookup_member(r: &Option<ResolvedData>, id: u64) -> (b: bool)
    ensures
        b == member_known(*r, id),
{
    match r {
        Some(d) => contains_id(&d.members, id),
        None => false,
    }
}

fn lookup_role(r: &Option<ResolvedData>, id: u64) -> (b: bool)
    ensures
        b == role_known(*r, id),
{
    match r {
        Some(d) => contains_id(&d.roles, id),
        None => false,
    }
}

fn lookup_attachment(r: &Option<ResolvedData>, id: u64) -> (b: bool)
    ensures
        b == attachment_known(*r, id),
{
    match r {
        Some(d) => contains_id(&d.attachments, id),
        None => false,
    }
}

fn lookup_channel(r: &Option<ResolvedData>, id: u64) -> (k: Option<ChannelType>)
    ensures
        k == channel_known(*r, id),
{
    match r {
        Some(d) => find_channel(&d.channels, id),
        None => None,
    }
}

fn channel_type_allowed(kind: ChannelType, data: &CommandOptionData) -> (b: bool)
    ensures
        b == channel_allowed(kind, data@),
{
    match data.channel_types.as_ref() {
        None => true,
        Some(l) => {
            let mut i: usize = 0;
            while i < l.len()
                invariant
                    data.channel_types == Some(*l),
                    i <= l@.len(),
                    forall|j: int| 0 <= j < i ==> l@[j] != kind,
                decreases l@.len() - i,
            {
                if l[i] == kind {
                    assert(l@[i as int] == kind);
                    assert(l@.contains(kind));
                    return true;
                }
                i += 1;
            }
            assert(!l@.contains(kind));
            false
        },
    }
}

/// Coerce a received value into a value type, checking the declared
/// constraints and looking entities up in the resolved data.
pub fn coerce_value(t: ValueType, v: OptionValue, data: &CommandOptionData, r: &Option<ResolvedData>) -> (res: Result<ParsedValue, ParseOptionErrorType>)
    ensures
        res == coerce(t, v, data@, *r),
{
    let kind = v.kind();
    match (t, v) {
        (ValueType::String, OptionValue::String(s)) => {
            let n = s.as_str().unicode_len();
            let too_short = match data.min_length {
                Some(m) => n < m as usize,
                None => false,
            };
            let too_long = match data.max_length {
                Some(m) => n > m as usize,
                None => false,
            };
            if too_short || too_long {
                Err(ParseOptionErrorType::StringOutOfRange(s))
            } else {
                Ok(ParsedValue::String(s))
            }
        },
        (ValueType::Integer, OptionValue::Integer(i)) => {
            let below = match &data.min_value {
                Some(CommandOptionValue::Integer(m)) => i < *m,
                _ => false,
            };
            let above = match &data.max_value {
                Some(CommandOptionValue::Integer(m)) => i > *m,
                _ => false,
            };
            if below || above {
                Err(ParseOptionErrorType::IntegerOutOfRange(i))
            } else {
                Ok(ParsedValue::Integer(i))
            }
        },
        (ValueType::Number, OptionValue::Number(t)) => Ok(ParsedValue::Number(t)),
        (ValueType::Boolean, OptionValue::Boolean(b)) => Ok(ParsedValue::Boolean(b)),
        (ValueType::UserId, OptionValue::User(id)) => Ok(ParsedValue::UserId(id)),
        (ValueType::ChannelId, OptionValue::Channel(id)) => Ok(ParsedValue::ChannelId(id)),
        (ValueType::RoleId, OptionValue::Role(id)) => Ok(ParsedValue::RoleId(id)),
        (ValueType::MentionableId, OptionValue::Mentionable(id)) => Ok(ParsedValue::MentionableId(id)),
        (ValueType::AttachmentId, OptionValue::Attachment(id)) => Ok(ParsedValue::AttachmentId(id)),
        (ValueType::User, OptionValue::User(id)) => {
            if lookup_user(r, id) {
                Ok(ParsedValue::User(ResolvedUser { id, member: lookup_member(r, id) }))
            } else {
                Err(ParseOptionErrorType::LookupFailed(id))
            }
        },
        (ValueType::Channel, OptionValue::Channel(id)) => {
            match lookup_channel(r, id) {
                None => Err(ParseOptionErrorType::LookupFailed(id)),
                Some(k) => {
                    if channel_type_allowed(k, data) {
                        Ok(ParsedValue::Channel { id, kind: k })
                    } else {
                        Err(ParseOptionErrorType::InvalidChannelType(k))
                    }
                },
            }
        },
        (ValueType::Role, OptionValue::Role(id)) => {
            if lookup_role(r, id) {
                Ok(ParsedValue::Role(id))
            } else {
                Err(ParseOptionErrorType::LookupFailed(id))
            }
        },
        (ValueType::Mentionable, OptionValue::Mentionable(id)) => {
            if lookup_user(r, id) {
                Ok(ParsedValue::Mentionable(ResolvedMentionable::User(ResolvedUser { id, member: lookup_member(r, id) })))
            } else if lookup_role(r, id) {
                Ok(ParsedValue::Mentionable(ResolvedMentionable::Role(id)))
            } else {
                Err(ParseOptionErrorType::LookupFailed(id))
            }
        },
        (ValueType::Attachment, OptionValue::Attachment(id)) => {
            if lookup_attachment(r, id) {
                Ok(ParsedValue::Attachment(id))
            } else {
                Err(ParseOptionErrorType::LookupFailed(id))
            }
        },
        (_, _) => Err(ParseOptionErrorType::InvalidType(kind)),
    }
}

} // verus!
