use vstd::prelude::*;

verus! {

/// A community that groups chats.
#[derive(Clone, Debug)]
pub struct Community {
    pub id: i64,
    pub name: String,
}

/// Service message: the chat was added to a community.
#[derive(Clone, Debug)]
pub struct CommunityChatAdded {
    pub community: Community,
}

/// Service message: the chat joined a community.
#[derive(Clone, Debug)]
pub struct CommunityChatJoined {
    pub community: Community,
}

/// Service message: the chat was removed from its community.
#[derive(Clone, Copy, Debug)]
pub struct CommunityChatRemoved {}

} // verus!
