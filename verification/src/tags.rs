//! The tags this client writes, field by field, and the identities it reads
//! from the tags of others.

use vstd::prelude::*;
use crate::text::copy_strings;
use crate::text::texts;
use crate::watch::Tag;

verus! {

/// The tag of a reply: a reference to the event replied to.
pub fn reply_reference(event_id: &str) -> (fields: Vec<String>)
    ensures
        texts(fields@) == seq!["e"@, event_id@, ""@, "reply"@],
{
    let mut fields: Vec<String> = Vec::new();
    fields.push("e".to_owned());
    fields.push(event_id.to_owned());
    fields.push("".to_owned());
    fields.push("reply".to_owned());
    assert(texts(fields@) =~= seq!["e"@, event_id@, ""@, "reply"@]);
    fields
}

/// The tag of a channel message: a reference to the channel as root.
pub fn channel_root(channel_id: &str) -> (fields: Vec<String>)
    ensures
        texts(fields@) == seq!["e"@, channel_id@, ""@, "root"@],
{
    let mut fields: Vec<String> = Vec::new();
    fields.push("e".to_owned());
    fields.push(channel_id.to_owned());
    fields.push("".to_owned());
    fields.push("root".to_owned());
    assert(texts(fields@) =~= seq!["e"@, channel_id@, ""@, "root"@]);
    fields
}

/// The tag of a change to a channel: a reference to the channel, with the
/// relay it is found on.
pub fn channel_reference(channel_id: &str, relay_url: &str) -> (fields: Vec<String>)
    ensures
        texts(fields@) == seq!["e"@, channel_id@, relay_url@],
{
    let mut fields: Vec<String> = Vec::new();
    fields.push("e".to_owned());
    fields.push(channel_id.to_owned());
    fields.push(relay_url.to_owned());
    assert(texts(fields@) =~= seq!["e"@, channel_id@, relay_url@]);
    fields
}

/// The tag that names the relays a payment receipt goes to.
pub fn relays_tag(relays: &Vec<String>) -> (fields: Vec<String>)
    ensures
        texts(fields@) == seq!["relays"@] + texts(relays@),
{
    let mut fields: Vec<String> = Vec::new();
    fields.push("relays".to_owned());
    let mut copy = copy_strings(relays);
    fields.append(&mut copy);
    assert(texts(fields@) =~= seq!["relays"@] + texts(relays@));
    fields
}

/// The identities that the first `n` of `tags` refer to, in order.
pub open spec fn public_keys(tags: Seq<Tag>, n: int) -> Seq<Seq<char>>
    decreases n,
{
    if n <= 0 {
        Seq::<Seq<char>>::empty()
    } else {
        match tags[n - 1] {
            Tag::PublicKey { public_key } => public_keys(tags, n - 1).push(public_key@),
            _ => public_keys(tags, n - 1),
        }
    }
}

/// The contacts of a contact list: the identities its tags refer to, in
/// order.
pub fn contacts_of(tags: &Vec<Tag>) -> (contacts: Vec<String>)
    ensures
        texts(contacts@) == public_keys(tags@, tags@.len() as int),
{
    let mut contacts: Vec<String> = Vec::new();
    let mut i: usize = 0;
    assert(texts(contacts@) =~= public_keys(tags@, 0));
    while i < tags.len()
        invariant
            i <= tags@.len(),
            texts(contacts@) == public_keys(tags@, i as int),
        decreases tags@.len() - i,
    {
        let ghost before = texts(contacts@);
        match &tags[i] {
            Tag::PublicKey { public_key } => {
                contacts.push(public_key.clone());
                assert(texts(contacts@) =~= before.push(public_key@));
            },
            _ => {},
        }
        i += 1;
    }
    contacts
}

/// The first identity that `tags` refer to, if there is one.
pub fn first_public_key(tags: &Vec<Tag>) -> (found: Option<String>)
    ensures
        match found {
            Some(key) => public_keys(tags@, tags@.len() as int).len() > 0 && key@ == public_keys(
                tags@,
                tags@.len() as int,
            )[0],
            None => public_keys(tags@, tags@.len() as int).len() == 0,
        },
{
    let contacts = contacts_of(tags);
    if contacts.len() > 0 {
        assert(texts(contacts@)[0] == contacts@[0]@);
        Some(contacts[0].clone())
    } else {
        assert(texts(contacts@).len() == 0);
        None
    }
}

} // verus!
