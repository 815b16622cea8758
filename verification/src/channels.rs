//! Locating the destination channel.
//!
//! The destination is a well-known channel, found by name under a
//! well-known category. When it is absent the caller creates it (with
//! broadcast-capable type) and uses the new channel's id instead.

use vstd::prelude::*;

verus! {

/// A guild channel as the lookup sees it.
pub struct ChannelInfo {
    pub id: u64,
    pub name: String,
    pub parent_id: Option<u64>,
}

/// Mathematical image of a guild channel.
#[verifier::ext_equal]
pub struct ChannelModel {
    pub id: u64,
    pub name: Seq<char>,
    pub parent_id: Option<u64>,
}

impl View for ChannelInfo {
    type V = ChannelModel;

    open spec fn view(&self) -> ChannelModel {
        ChannelModel { id: self.id, name: self.name@, parent_id: self.parent_id }
    }
}

/// The images of a sequence of guild channels.
pub open spec fn channels_view(v: Seq<ChannelInfo>) -> Seq<ChannelModel> {
    v.map_values(|c: ChannelInfo| c@)
}

/// Is `c` the destination channel: named `name`, directly under the
/// category `category_id`?
pub open spec fn channel_matches(c: ChannelModel, name: Seq<char>, category_id: u64) -> bool {
    &&& c.name == name
    &&& c.parent_id == Some(category_id)
}

/// The id of the first channel in `cs` that matches, if any.
pub open spec fn find_channel(cs: Seq<ChannelModel>, name: Seq<char>, category_id: u64) -> Option<
    u64,
>
    decreases cs.len(),
{
    if cs.len() == 0 {
        None
    } else if channel_matches(cs[0], name, category_id) {
        Some(cs[0].id)
    } else {
        find_channel(cs.drop_first(), name, category_id)
    }
}

/// Look the destination channel up by name under the category. `None`
/// means it does not exist and must be created.
pub fn find_destination_channel(channels: &Vec<ChannelInfo>, name: &String, category_id: u64) -> (r:
    Option<u64>)
    ensures
        r == find_channel(channels_view(channels@), name@, category_id),
{
    let ghost cv = channels_view(channels@);
    proof {
        assert(cv.skip(0) =~= cv);
    }
    let mut i: usize = 0;
    while i < channels.len()
        invariant
            i <= channels@.len(),
            cv == channels_view(channels@),
            find_channel(cv, name@, category_id) == find_channel(
                cv.skip(i as int),
                name@,
                category_id,
            ),
        decreases channels@.len() - i,
    {
        let ghost rest = cv.skip(i as int);
        proof {
            assert(rest[0] == cv[i as int]);
            assert(rest.drop_first() =~= cv.skip(i as int + 1));
        }
        let c = &channels[i];
        let in_category = match c.parent_id {
            Some(p) => p == category_id,
            None => false,
        };
        if in_category && c.name == *name {
            return Some(c.id);
        }
        proof {
            assert(!channel_matches(cv[i as int], name@, category_id));
        }
        i = i + 1;
    }
    proof {
        assert(cv.skip(i as int) =~= Seq::<ChannelModel>::empty());
    }
    None
}

} // verus!
