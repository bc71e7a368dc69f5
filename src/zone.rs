//! The zone-group topology that a player reports: which players form each
//! group, and which one coordinates it.
use vstd::prelude::*;

verus! {

/// One player in a zone group.
#[derive(Debug, PartialEq, Eq, Clone)]
pub struct ZoneGroupMember {
    pub satellites: Vec<Satellite>,
    pub uuid: String,
    /// URL of the player's device description.
    pub location: String,
    pub zone_name: String,
    pub icon: String,
    pub configuration: String,
    pub software_version: String,
    pub sw_gen: String,
    pub min_compatible_version: String,
    pub legacy_compatible_version: String,
    pub boot_seq: String,
    pub tv_configuration_error: String,
    pub hdmi_cec_available: u8,
    pub wireless_mode: u8,
    pub wireless_leaf_only: u8,
    pub channel_freq: u32,
    pub behind_wifi_extender: u8,
    pub wifi_enabled: u8,
    pub eth_link: u8,
    pub orientation: u8,
    pub room_calibration_state: u32,
    pub secure_reg_state: u32,
    pub voice_config_state: u32,
    pub mic_enabled: u8,
    pub airplay_enabled: u8,
    pub idle_state: u8,
    pub more_info: String,
    pub ssl_port: u16,
    pub hhssl_port: u16,
}

/// A satellite speaker bonded to a player.
#[derive(Debug, PartialEq, Eq, Clone)]
pub struct Satellite {
    pub uuid: String,
    /// URL of the satellite's device description.
    pub location: String,
    pub zone_name: String,
    pub icon: String,
    pub configuration: String,
    pub software_version: String,
    pub sw_gen: String,
    pub min_compatible_version: String,
    pub legacy_compatible_version: String,
    pub boot_seq: String,
    pub tv_configuration_error: String,
    pub hdmi_cec_available: u8,
    pub wireless_mode: u8,
    pub wireless_leaf_only: u8,
    pub channel_freq: u32,
    pub behind_wifi_extender: u8,
    pub wifi_enabled: u8,
    pub eth_link: u8,
    pub orientation: u8,
    pub room_calibration_state: u32,
    pub secure_reg_state: u32,
    pub voice_config_state: u32,
    pub mic_enabled: u8,
    pub airplay_enabled: u8,
    pub idle_state: u8,
    pub more_info: String,
    pub ssl_port: u16,
    pub hhssl_port: u16,
}

/// A group of players that play together.
#[derive(Debug, PartialEq, Eq, Clone)]
pub struct ZoneGroup {
    pub coordinator: String,
    pub id: String,
    pub members: Vec<ZoneGroupMember>,
}

/// The zone groups of a household.
#[derive(Debug, PartialEq, Clone)]
pub struct ZoneGroupState {
    pub groups: Vec<ZoneGroup>,
}

/// Whether text `a` comes no later than `b` in the order of `String`:
/// character by character, a prefix first.
pub open spec fn text_le(a: Seq<char>, b: Seq<char>) -> bool
    decreases a.len(),
{
    if a.len() == 0 {
        true
    } else if b.len() == 0 {
        false
    } else if a[0] != b[0] {
        (a[0] as u32) < (b[0] as u32)
    } else {
        text_le(a.drop_first(), b.drop_first())
    }
}

/// Whether `members` are in order of their `uuid`.
pub open spec fn sorted_by_uuid(members: Seq<ZoneGroupMember>) -> bool {
    forall|i: int, j: int| 0 <= i < j < members.len() ==> text_le(#[trigger] members[i].uuid@, #[trigger] members[j].uuid@)
}

/// Relies on `slice::sort_by` with `String::cmp` on the `uuid` fields: the
/// same members, in order of their `uuid` (`String`'s order is that of its
/// bytes, which for UTF-8 is that of its characters).
#[verifier::external_body]
fn sort_by_uuid(members: &mut Vec<ZoneGroupMember>)
    ensures
        final(members)@.to_multiset() == old(members)@.to_multiset(),
        sorted_by_uuid(final(members)@),
{
    members.sort_by(|a, b| a.uuid.cmp(&b.uuid))
}

impl ZoneGroupState {
    /// The state made of `groups`, with each group's members put in order of
    /// their `uuid`.
    pub fn from_groups(groups: Vec<ZoneGroup>) -> (r: ZoneGroupState)
        ensures
            r.groups@.len() == groups@.len(),
            forall|i: int|
                0 <= i < groups@.len() ==> {
                    &&& (#[trigger] r.groups@[i]).coordinator == groups@[i].coordinator
                    &&& r.groups@[i].id == groups@[i].id
                    &&& r.groups@[i].members@.to_multiset() == groups@[i].members@.to_multiset()
                    &&& sorted_by_uuid(r.groups@[i].members@)
                },
    {
        let ghost given = groups@;
        let mut rest = groups;
        let mut out: Vec<ZoneGroup> = Vec::new();
        while rest.len() > 0
            invariant
                out@.len() + rest@.len() == given.len(),
                rest@ == given.subrange(out@.len() as int, given.len() as int),
                forall|i: int|
                    0 <= i < out@.len() ==> {
                        &&& (#[trigger] out@[i]).coordinator == given[i].coordinator
                        &&& out@[i].id == given[i].id
                        &&& out@[i].members@.to_multiset() == given[i].members@.to_multiset()
                        &&& sorted_by_uuid(out@[i].members@)
                    },
            decreases rest.len(),
        {
            let ghost k = out@.len() as int;
            let mut g = rest.remove(0);
            assert(g == given[k]);
            sort_by_uuid(&mut g.members);
            out.push(g);
            assert(rest@ =~= given.subrange(out@.len() as int, given.len() as int));
        }
        ZoneGroupState { groups: out }
    }
}

} // verus!
