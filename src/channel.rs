//! Word-list attributes: channel types, interaction contexts and integration
//! types, written as snake_case words separated by spaces.
use vstd::prelude::*;

use crate::chars::{split_words, str_eq, words};
use crate::error::DeriveError;

verus! {

/// Channel kinds an option can be restricted to.
#[derive(Debug, Clone, Copy, PartialEq, Eq, Structural)]
pub enum ChannelType {
    GuildText,
    Private,
    GuildVoice,
    Group,
    GuildCategory,
    GuildAnnouncement,
    GuildStore,
    AnnouncementThread,
    PublicThread,
    PrivateThread,
    GuildStageVoice,
    GuildDirectory,
    GuildForum,
}

/// The name of a channel type in messages.
pub open spec fn channel_type_name(k: ChannelType) -> Seq<char> {
    match k {
        ChannelType::GuildText => "GuildText"@,
        ChannelType::Private => "Private"@,
        ChannelType::GuildVoice => "GuildVoice"@,
        ChannelType::Group => "Group"@,
        ChannelType::GuildCategory => "GuildCategory"@,
        ChannelType::GuildAnnouncement => "GuildAnnouncement"@,
        ChannelType::GuildStore => "GuildStore"@,
        ChannelType::AnnouncementThread => "AnnouncementThread"@,
        ChannelType::PublicThread => "PublicThread"@,
        ChannelType::PrivateThread => "PrivateThread"@,
        ChannelType::GuildStageVoice => "GuildStageVoice"@,
        ChannelType::GuildDirectory => "GuildDirectory"@,
        ChannelType::GuildForum => "GuildForum"@,
    }
}

impl ChannelType {
    /// The channel type's name in messages.
    pub fn name(&self) -> (r: &'static str)
        ensures
            r@ == channel_type_name(*self),
    {
        match self {
            ChannelType::GuildText => "GuildText",
            ChannelType::Private => "Private",
            ChannelType::GuildVoice => "GuildVoice",
            ChannelType::Group => "Group",
            ChannelType::GuildCategory => "GuildCategory",
            ChannelType::GuildAnnouncement => "GuildAnnouncement",
            ChannelType::GuildStore => "GuildStore",
            ChannelType::AnnouncementThread => "AnnouncementThread",
            ChannelType::PublicThread => "PublicThread",
            ChannelType::PrivateThread => "PrivateThread",
            ChannelType::GuildStageVoice => "GuildStageVoice",
            ChannelType::GuildDirectory => "GuildDirectory",
            ChannelType::GuildForum => "GuildForum",
        }
    }
}

/// The channel type a word names, old names included.
pub open spec fn channel_type_of(w: Seq<char>) -> Option<ChannelType> {
    if w == "guild_text"@ {
        Some(ChannelType::GuildText)
    } else if w == "private"@ {
        Some(ChannelType::Private)
    } else if w == "guild_voice"@ {
        Some(ChannelType::GuildVoice)
    } else if w == "group"@ {
        Some(ChannelType::Group)
    } else if w == "guild_category"@ {
        Some(ChannelType::GuildCategory)
    } else if w == "guild_announcement"@ || w == "guild_news"@ {
        Some(ChannelType::GuildAnnouncement)
    } else if w == "guild_store"@ {
        Some(ChannelType::GuildStore)
    } else if w == "announcement_thread"@ || w == "guild_news_thread"@ {
        Some(ChannelType::AnnouncementThread)
    } else if w == "public_thread"@ || w == "guild_public_thread"@ {
        Some(ChannelType::PublicThread)
    } else if w == "private_thread"@ || w == "guild_private_thread"@ {
        Some(ChannelType::PrivateThread)
    } else if w == "guild_stage_voice"@ {
        Some(ChannelType::GuildStageVoice)
    } else if w == "guild_directory"@ {
        Some(ChannelType::GuildDirectory)
    } else if w == "guild_forum"@ {
        Some(ChannelType::GuildForum)
    } else {
        None
    }
}

impl ChannelType {
    pub fn parse(w: &str) -> (r: Option<ChannelType>)
        ensures
            r == channel_type_of(w@),
    {
        if str_eq(w, "guild_text") {
            Some(ChannelType::GuildText)
        } else if str_eq(w, "private") {
            Some(ChannelType::Private)
        } else if str_eq(w, "guild_voice") {
            Some(ChannelType::GuildVoice)
        } else if str_eq(w, "group") {
            Some(ChannelType::Group)
        } else if str_eq(w, "guild_category") {
            Some(ChannelType::GuildCategory)
        } else if str_eq(w, "guild_announcement") || str_eq(w, "guild_news") {
            Some(ChannelType::GuildAnnouncement)
        } else if str_eq(w, "guild_store") {
            Some(ChannelType::GuildStore)
        } else if str_eq(w, "announcement_thread") || str_eq(w, "guild_news_thread") {
            Some(ChannelType::AnnouncementThread)
        } else if str_eq(w, "public_thread") || str_eq(w, "guild_public_thread") {
            Some(ChannelType::PublicThread)
        } else if str_eq(w, "private_thread") || str_eq(w, "guild_private_thread") {
            Some(ChannelType::PrivateThread)
        } else if str_eq(w, "guild_stage_voice") {
            Some(ChannelType::GuildStageVoice)
        } else if str_eq(w, "guild_directory") {
            Some(ChannelType::GuildDirectory)
        } else if str_eq(w, "guild_forum") {
            Some(ChannelType::GuildForum)
        } else {
            None
        }
    }
}

/// Contexts in which a command can be used.
#[derive(Debug, Clone, Copy, PartialEq, Eq, Structural)]
pub enum InteractionContextType {
    Guild,
    BotDm,
    PrivateChannel,
}

pub open spec fn context_type_of(w: Seq<char>) -> Option<InteractionContextType> {
    if w == "guild"@ {
        Some(InteractionContextType::Guild)
    } else if w == "bot_dm"@ {
        Some(InteractionContextType::BotDm)
    } else if w == "private_channel"@ {
        Some(InteractionContextType::PrivateChannel)
    } else {
        None
    }
}

impl InteractionContextType {
    pub fn parse(w: &str) -> (r: Option<InteractionContextType>)
        ensures
            r == context_type_of(w@),
    {
        if str_eq(w, "guild") {
            Some(InteractionContextType::Guild)
        } else if str_eq(w, "bot_dm") {
            Some(InteractionContextType::BotDm)
        } else if str_eq(w, "private_channel") {
            Some(InteractionContextType::PrivateChannel)
        } else {
            None
        }
    }
}

/// Installation contexts of an application.
#[derive(Debug, Clone, Copy, PartialEq, Eq, Structural)]
pub enum ApplicationIntegrationType {
    GuildInstall,
    UserInstall,
}

pub open spec fn integration_type_of(w: Seq<char>) -> Option<ApplicationIntegrationType> {
    if w == "guild_install"@ {
        Some(ApplicationIntegrationType::GuildInstall)
    } else if w == "user_install"@ {
        Some(ApplicationIntegrationType::UserInstall)
    } else {
        None
    }
}

impl ApplicationIntegrationType {
    pub fn parse(w: &str) -> (r: Option<ApplicationIntegrationType>)
        ensures
            r == integration_type_of(w@),
    {
        if str_eq(w, "guild_install") {
            Some(ApplicationIntegrationType::GuildInstall)
        } else if str_eq(w, "user_install") {
            Some(ApplicationIntegrationType::UserInstall)
        } else {
            None
        }
    }
}

/// Which of the three word lists a string is read as.
#[derive(Debug, Clone, Copy, PartialEq, Eq, Structural)]
pub enum WordList {
    Channels,
    Contexts,
    Integrations,
}

/// Whether `w` names an item of the list kind.
pub open spec fn word_known(list: WordList, w: Seq<char>) -> bool {
    match list {
        WordList::Channels => channel_type_of(w) is Some,
        WordList::Contexts => context_type_of(w) is Some,
        WordList::Integrations => integration_type_of(w) is Some,
    }
}

/// Whether `e` is the error for the first unknown word of `s`.
pub open spec fn word_list_error(list: WordList, s: Seq<char>, e: DeriveError) -> bool {
    exists|i: int|
        #![trigger words(s)[i]]
        0 <= i < words(s).len() && !word_known(list, words(s)[i])
        && (forall|j: int| 0 <= j < i ==> word_known(list, #[trigger] words(s)[j]))
        && match e {
            DeriveError::InvalidChannelType(w) => list == WordList::Channels && w@ == words(s)[i],
            DeriveError::InvalidContextType(w) => list == WordList::Contexts && w@ == words(s)[i],
            DeriveError::InvalidIntegrationType(w) => list == WordList::Integrations && w@ == words(s)[i],
            _ => false,
        }
}

/// Whether every word of `s` names an item of the list kind.
pub open spec fn word_list_ok(list: WordList, s: Seq<char>) -> bool {
    forall|i: int| 0 <= i < words(s).len() ==> word_known(list, #[trigger] words(s)[i])
}

/// Index of the first unknown word of `ws`, or its length.
fn first_unknown(list: WordList, ws: &Vec<String>) -> (r: usize)
    ensures
        r <= ws@.len(),
        forall|j: int| 0 <= j < r ==> word_known(list, (#[trigger] ws@[j])@),
        r < ws@.len() ==> !word_known(list, ws@[r as int]@),
{
    let mut i: usize = 0;
    while i < ws.len()
        invariant
            i <= ws@.len(),
            forall|j: int| 0 <= j < i ==> word_known(list, (#[trigger] ws@[j])@),
        decreases ws@.len() - i,
    {
        let w = ws[i].as_str();
        let known = match list {
            WordList::Channels => ChannelType::parse(w).is_some(),
            WordList::Contexts => InteractionContextType::parse(w).is_some(),
            WordList::Integrations => ApplicationIntegrationType::parse(w).is_some(),
        };
        if !known {
            return i;
        }
        i += 1;
    }
    i
}

fn unknown_word_error(list: WordList, w: String) -> (e: DeriveError)
    ensures
        match e {
            DeriveError::InvalidChannelType(x) => list == WordList::Channels && x == w,
            DeriveError::InvalidContextType(x) => list == WordList::Contexts && x == w,
            DeriveError::InvalidIntegrationType(x) => list == WordList::Integrations && x == w,
            _ => false,
        },
{
    match list {
        WordList::Channels => DeriveError::InvalidChannelType(w),
        WordList::Contexts => DeriveError::InvalidContextType(w),
        WordList::Integrations => DeriveError::InvalidIntegrationType(w),
    }
}

/// Parse a space-separated list of channel type names.
pub fn parse_channel_types(s: &str) -> (r: Result<Vec<ChannelType>, DeriveError>)
    ensures
        r is Ok <==> word_list_ok(WordList::Channels, s@),
        match r {
            Ok(v) => v@.len() == words(s@).len() && forall|i: int|
                0 <= i < v@.len() ==> Some(#[trigger] v@[i]) == channel_type_of(words(s@)[i]),
            Err(e) => word_list_error(WordList::Channels, s@, e),
        },
{
    let ws = split_words(s);
    let k = first_unknown(WordList::Channels, &ws);
    if k < ws.len() {
        let e = unknown_word_error(WordList::Channels, ws[k].clone());
        assert(words(s@)[k as int] == ws@[k as int]@);
        assert forall|j: int| 0 <= j < k implies word_known(WordList::Channels, #[trigger] words(s@)[j]) by {
            assert(ws@[j]@ == words(s@)[j]);
        }
        assert(!word_list_ok(WordList::Channels, s@));
        assert(word_list_error(WordList::Channels, s@, e));
        return Err(e);
    }
    let mut out: Vec<ChannelType> = Vec::new();
    let mut i: usize = 0;
    while i < ws.len()
        invariant
            k == ws@.len(),
            ws@.len() == words(s@).len(),
            forall|j: int| 0 <= j < ws@.len() ==> (#[trigger] ws@[j])@ == words(s@)[j],
            forall|j: int| 0 <= j < ws@.len() ==> word_known(WordList::Channels, (#[trigger] ws@[j])@),
            i <= ws@.len(),
            out@.len() == i,
            forall|j: int| 0 <= j < i ==> Some(#[trigger] out@[j]) == channel_type_of(words(s@)[j]),
        decreases ws@.len() - i,
    {
        assert(word_known(WordList::Channels, ws@[i as int]@));
        match ChannelType::parse(ws[i].as_str()) {
            Some(t) => out.push(t),
            None => {
                return Err(DeriveError::InvalidChannelType(ws[i].clone()));
            },
        }
        i += 1;
    }
    assert(word_list_ok(WordList::Channels, s@)) by {
        assert forall|j: int| 0 <= j < words(s@).len() implies word_known(WordList::Channels, #[trigger] words(s@)[j]) by {
            assert(ws@[j]@ == words(s@)[j]);
        }
    }
    Ok(out)
}

/// Parse a space-separated list of interaction context names.
pub fn parse_context_types(s: &str) -> (r: Result<Vec<InteractionContextType>, DeriveError>)
    ensures
        r is Ok <==> word_list_ok(WordList::Contexts, s@),
        match r {
            Ok(v) => v@.len() == words(s@).len() && forall|i: int|
                0 <= i < v@.len() ==> Some(#[trigger] v@[i]) == context_type_of(words(s@)[i]),
            Err(e) => word_list_error(WordList::Contexts, s@, e),
        },
{
    let ws = split_words(s);
    let k = first_unknown(WordList::Contexts, &ws);
    if k < ws.len() {
        let e = unknown_word_error(WordList::Contexts, ws[k].clone());
        assert(words(s@)[k as int] == ws@[k as int]@);
        assert forall|j: int| 0 <= j < k implies word_known(WordList::Contexts, #[trigger] words(s@)[j]) by {
            assert(ws@[j]@ == words(s@)[j]);
        }
        assert(!word_list_ok(WordList::Contexts, s@));
        assert(word_list_error(WordList::Contexts, s@, e));
        return Err(e);
    }
    let mut out: Vec<InteractionContextType> = Vec::new();
    let mut i: usize = 0;
    while i < ws.len()
        invariant
            k == ws@.len(),
            ws@.len() == words(s@).len(),
            forall|j: int| 0 <= j < ws@.len() ==> (#[trigger] ws@[j])@ == words(s@)[j],
            forall|j: int| 0 <= j < ws@.len() ==> word_known(WordList::Contexts, (#[trigger] ws@[j])@),
            i <= ws@.len(),
            out@.len() == i,
            forall|j: int| 0 <= j < i ==> Some(#[trigger] out@[j]) == context_type_of(words(s@)[j]),
        decreases ws@.len() - i,
    {
        assert(word_known(WordList::Contexts, ws@[i as int]@));
        match InteractionContextType::parse(ws[i].as_str()) {
            Some(t) => out.push(t),
            None => {
                return Err(DeriveError::InvalidContextType(ws[i].clone()));
            },
        }
        i += 1;
    }
    assert(word_list_ok(WordList::Contexts, s@)) by {
        assert forall|j: int| 0 <= j < words(s@).len() implies word_known(WordList::Contexts, #[trigger] words(s@)[j]) by {
            assert(ws@[j]@ == words(s@)[j]);
        }
    }
    Ok(out)
}

/// Parse a space-separated list of integration type names.
pub fn parse_integration_types(s: &str) -> (r: Result<Vec<ApplicationIntegrationType>, DeriveError>)
    ensures
        r is Ok <==> word_list_ok(WordList::Integrations, s@),
        match r {
            Ok(v) => v@.len() == words(s@).len() && forall|i: int|
                0 <= i < v@.len() ==> Some(#[trigger] v@[i]) == integration_type_of(words(s@)[i]),
            Err(e) => word_list_error(WordList::Integrations, s@, e),
        },
{
    let ws = split_words(s);
    let k = first_unknown(WordList::Integrations, &ws);
    if k < ws.len() {
        let e = unknown_word_error(WordList::Integrations, ws[k].clone());
        assert(words(s@)[k as int] == ws@[k as int]@);
        assert forall|j: int| 0 <= j < k implies word_known(WordList::Integrations, #[trigger] words(s@)[j]) by {
            assert(ws@[j]@ == words(s@)[j]);
        }
        assert(!word_list_ok(WordList::Integrations, s@));
        assert(word_list_error(WordList::Integrations, s@, e));
        return Err(e);
    }
    let mut out: Vec<ApplicationIntegrationType> = Vec::new();
    let mut i: usize = 0;
    while i < ws.len()
        invariant
            k == ws@.len(),
            ws@.len() == words(s@).len(),
            forall|j: int| 0 <= j < ws@.len() ==> (#[trigger] ws@[j])@ == words(s@)[j],
            forall|j: int| 0 <= j < ws@.len() ==> word_known(WordList::Integrations, (#[trigger] ws@[j])@),
            i <= ws@.len(),
            out@.len() == i,
            forall|j: int| 0 <= j < i ==> Some(#[trigger] out@[j]) == integration_type_of(words(s@)[j]),
        decreases ws@.len() - i,
    {
        assert(word_known(WordList::Integrations, ws@[i as int]@));
        match ApplicationIntegrationType::parse(ws[i].as_str()) {
            Some(t) => out.push(t),
            None => {
                return Err(DeriveError::InvalidIntegrationType(ws[i].clone()));
            },
        }
        i += 1;
    }
    assert(word_list_ok(WordList::Integrations, s@)) by {
        assert forall|j: int| 0 <= j < words(s@).len() implies word_known(WordList::Integrations, #[trigger] words(s@)[j]) by {
            assert(ws@[j]@ == words(s@)[j]);
        }
    }
    Ok(out)
}

} // verus!
