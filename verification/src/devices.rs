//! The catalog of supported Soundcore models and how a connected device is
//! matched against it.

use vstd::prelude::*;

use crate::mac::MacAddress;
use crate::text::{eq_ignore_ascii_case, eq_ignore_ascii_case_spec, lemma_eq_ignore_case_chain};

verus! {

/// A Soundcore model this application knows how to drive.
#[derive(Clone, Copy, Debug, PartialEq, Eq, Hash, Structural)]
pub enum DeviceModel {
    /// Liberty 4 Pro.
    SoundcoreA3954,
    /// R60i NC.
    SoundcoreD1202C,
    /// P20i.
    SoundcoreA3949,
    /// Life Q30.
    SoundcoreA3028,
    /// Space One Pro.
    SoundcoreA3062,
}

pub open spec fn model_code_spec(model: DeviceModel) -> Seq<char> {
    match model {
        DeviceModel::SoundcoreA3954 => "SoundcoreA3954"@,
        DeviceModel::SoundcoreD1202C => "SoundcoreD1202C"@,
        DeviceModel::SoundcoreA3949 => "SoundcoreA3949"@,
        DeviceModel::SoundcoreA3028 => "SoundcoreA3028"@,
        DeviceModel::SoundcoreA3062 => "SoundcoreA3062"@,
    }
}

impl DeviceModel {
    /// The model's name in the Soundcore protocol library.
    pub fn code(&self) -> (code: &'static str)
        ensures
            code@ == model_code_spec(*self),
    {
        match self {
            DeviceModel::SoundcoreA3954 => "SoundcoreA3954",
            DeviceModel::SoundcoreD1202C => "SoundcoreD1202C",
            DeviceModel::SoundcoreA3949 => "SoundcoreA3949",
            DeviceModel::SoundcoreA3028 => "SoundcoreA3028",
            DeviceModel::SoundcoreA3062 => "SoundcoreA3062",
        }
    }
}

/// A supported model: its identity, the name it advertises over Bluetooth,
/// and how the user interface presents it.
#[derive(Clone, Debug, PartialEq, Eq)]
pub struct DeviceProfile {
    pub model: DeviceModel,
    /// Matched case-insensitively against the advertised device name.
    pub bluetooth_name: String,
    pub display_name: String,
    /// The file name of the model's illustration, or `None` to draw the
    /// generic placeholder.
    pub icon: Option<String>,
    /// Whether the model has separate manual noise-canceling and
    /// transparency strength settings, which the ambient slider and the
    /// start-up ambient repair write to. Writing a setting a model does not
    /// have is not allowed, so this is `false` for any model not known to
    /// have them.
    pub supports_manual_ambient_ranges: bool,
}

pub struct ProfileView {
    pub model: DeviceModel,
    pub bluetooth_name: Seq<char>,
    pub display_name: Seq<char>,
    pub icon: Option<Seq<char>>,
    pub supports_manual_ambient_ranges: bool,
}

impl View for DeviceProfile {
    type V = ProfileView;

    open spec fn view(&self) -> ProfileView {
        ProfileView {
            model: self.model,
            bluetooth_name: self.bluetooth_name@,
            display_name: self.display_name@,
            icon: match self.icon {
                Some(name) => Some(name@),
                None => None,
            },
            supports_manual_ambient_ranges: self.supports_manual_ambient_ranges,
        }
    }
}

pub open spec fn profile_spec(
    model: DeviceModel,
    bluetooth_name: Seq<char>,
    display_name: Seq<char>,
    icon: Option<Seq<char>>,
    supports_manual_ambient_ranges: bool,
) -> ProfileView {
    ProfileView { model, bluetooth_name, display_name, icon, supports_manual_ambient_ranges }
}

/// Every supported model, in the order devices are searched for. Only the
/// Liberty 4 Pro and R60i NC names have been seen on real hardware; the others
/// follow the `soundcore <Product>` naming.
pub open spec fn catalog() -> Seq<ProfileView> {
    seq![
        profile_spec(
            DeviceModel::SoundcoreA3954,
            "soundcore Liberty 4 Pro"@,
            "Liberty 4 Pro"@,
            Some("liberty-4-pro.png"@),
            true,
        ),
        profile_spec(DeviceModel::SoundcoreD1202C, "soundcore R60i NC"@, "R60i NC"@, None, false),
        profile_spec(DeviceModel::SoundcoreA3949, "soundcore P20i"@, "P20i"@, None, false),
        profile_spec(DeviceModel::SoundcoreA3028, "soundcore Life Q30"@, "Life Q30"@, None, false),
        profile_spec(
            DeviceModel::SoundcoreA3062,
            "soundcore Space One Pro"@,
            "Space One Pro"@,
            None,
            false,
        ),
    ]
}

pub open spec fn profiles_view(profiles: Seq<DeviceProfile>) -> Seq<ProfileView> {
    profiles.map_values(|profile: DeviceProfile| profile@)
}

fn profile(
    model: DeviceModel,
    bluetooth_name: &str,
    display_name: &str,
    icon: Option<&str>,
    supports_manual_ambient_ranges: bool,
) -> (made: DeviceProfile)
    ensures
        made@ == profile_spec(
            model,
            bluetooth_name@,
            display_name@,
            match icon {
                Some(name) => Some(name@),
                None => None,
            },
            supports_manual_ambient_ranges,
        ),
{
    DeviceProfile {
        model,
        bluetooth_name: String::from_str(bluetooth_name),
        display_name: String::from_str(display_name),
        icon: match icon {
            Some(name) => Some(String::from_str(name)),
            None => None,
        },
        supports_manual_ambient_ranges,
    }
}

/// Every supported model, in the order devices are searched for.
pub fn device_profiles() -> (profiles: Vec<DeviceProfile>)
    ensures
        profiles_view(profiles@) == catalog(),
{
    let mut profiles: Vec<DeviceProfile> = Vec::new();
    profiles.push(
        profile(
            DeviceModel::SoundcoreA3954,
            "soundcore Liberty 4 Pro",
            "Liberty 4 Pro",
            Some("liberty-4-pro.png"),
            true,
        ),
    );
    profiles.push(
        profile(DeviceModel::SoundcoreD1202C, "soundcore R60i NC", "R60i NC", None, false),
    );
    profiles.push(profile(DeviceModel::SoundcoreA3949, "soundcore P20i", "P20i", None, false));
    profiles.push(
        profile(DeviceModel::SoundcoreA3028, "soundcore Life Q30", "Life Q30", None, false),
    );
    profiles.push(
        profile(DeviceModel::SoundcoreA3062, "soundcore Space One Pro", "Space One Pro", None, false),
    );
    assert(profiles_view(profiles@) =~= catalog());
    profiles
}

/// Whether an advertised name is the name of a catalog model, ignoring ASCII
/// case.
pub open spec fn known_profile_name(name: Seq<char>) -> bool {
    exists|i: int|
        0 <= i < catalog().len() && #[trigger] eq_ignore_ascii_case_spec(
            name,
            catalog()[i].bluetooth_name,
        )
}

/// Whether `name`, as advertised over Bluetooth, is the name of a supported
/// model (ignoring ASCII case).
pub fn matches_known_profile(name: &str) -> (known: bool)
    ensures
        known == known_profile_name(name@),
{
    let profiles = device_profiles();
    let n = profiles.len();
    let mut i: usize = 0;
    while i < n
        invariant
            n == profiles@.len(),
            profiles_view(profiles@) == catalog(),
            i <= n,
            forall|j: int|
                0 <= j < i ==> !#[trigger] eq_ignore_ascii_case_spec(
                    name@,
                    catalog()[j].bluetooth_name,
                ),
        decreases n - i,
    {
        assert(profiles_view(profiles@)[i as int] == profiles@[i as int]@);
        if eq_ignore_ascii_case(name, profiles[i].bluetooth_name.as_str()) {
            assert(eq_ignore_ascii_case_spec(name@, catalog()[i as int].bluetooth_name));
            return true;
        }
        i = i + 1;
    }
    false
}

/// A connected device as the Bluetooth stack lists it.
#[derive(Clone, Debug, PartialEq, Eq)]
pub struct ConnectionDescriptor {
    pub name: String,
    pub mac_address: MacAddress,
}

pub struct DescriptorView {
    pub name: Seq<char>,
    pub mac_address: MacAddress,
}

impl View for ConnectionDescriptor {
    type V = DescriptorView;

    open spec fn view(&self) -> DescriptorView {
        DescriptorView { name: self.name@, mac_address: self.mac_address }
    }
}

/// Whether `descriptor` is the device wanted: the one with the configured
/// address when there is one, else one whose name is the profile's name
/// (ignoring ASCII case).
pub open spec fn descriptor_matches(
    descriptor: DescriptorView,
    bluetooth_name: Seq<char>,
    configured_mac: Option<MacAddress>,
) -> bool {
    match configured_mac {
        Some(mac) => descriptor.mac_address.octets@ == mac.octets@,
        None => eq_ignore_ascii_case_spec(descriptor.name, bluetooth_name),
    }
}

fn copy_descriptor(descriptor: &ConnectionDescriptor) -> (copy: ConnectionDescriptor)
    ensures
        copy@ == descriptor@,
{
    ConnectionDescriptor { name: descriptor.name.clone(), mac_address: descriptor.mac_address }
}

/// Picks, out of the devices the Bluetooth stack lists, the first one that
/// matches `profile`: by MAC address when one is configured, otherwise by the
/// profile's Bluetooth name.
pub fn find_matching_descriptor(
    descriptors: &[ConnectionDescriptor],
    profile: &DeviceProfile,
    configured_mac: Option<MacAddress>,
) -> (found: Option<ConnectionDescriptor>)
    ensures
        match found {
            Some(d) => exists|i: int|
                0 <= i < descriptors@.len() && d@ == #[trigger] descriptors@[i]@ && descriptor_matches(
                    descriptors@[i]@,
                    profile.bluetooth_name@,
                    configured_mac,
                ) && forall|j: int|
                    0 <= j < i ==> !descriptor_matches(
                        #[trigger] descriptors@[j]@,
                        profile.bluetooth_name@,
                        configured_mac,
                    ),
            None => forall|j: int|
                0 <= j < descriptors@.len() ==> !descriptor_matches(
                    #[trigger] descriptors@[j]@,
                    profile.bluetooth_name@,
                    configured_mac,
                ),
        },
{
    let n = descriptors.len();
    let mut i: usize = 0;
    while i < n
        invariant
            n == descriptors@.len(),
            i <= n,
            forall|j: int|
                0 <= j < i ==> !descriptor_matches(
                    #[trigger] descriptors@[j]@,
                    profile.bluetooth_name@,
                    configured_mac,
                ),
        decreases n - i,
    {
        let descriptor = &descriptors[i];
        let matches = match configured_mac {
            Some(mac) => descriptor.mac_address.same_as(&mac),
            None => eq_ignore_ascii_case(
                descriptor.name.as_str(),
                profile.bluetooth_name.as_str(),
            ),
        };
        if matches {
            let copy = copy_descriptor(descriptor);
            assert(copy@ == descriptors@[i as int]@);
            return Some(copy);
        }
        i = i + 1;
    }
    None
}


/// Matching a name against the catalog ignores ASCII case: two names that
/// differ only in ASCII case are both known or both unknown.
pub proof fn lemma_known_profile_ignores_case(a: Seq<char>, b: Seq<char>)
    requires
        eq_ignore_ascii_case_spec(a, b),
    ensures
        known_profile_name(a) == known_profile_name(b),
{
    if known_profile_name(a) {
        let i = choose|i: int|
            0 <= i < catalog().len() && #[trigger] eq_ignore_ascii_case_spec(
                a,
                catalog()[i].bluetooth_name,
            );
        lemma_eq_ignore_case_chain(a, b, catalog()[i].bluetooth_name);
    }
    if known_profile_name(b) {
        let i = choose|i: int|
            0 <= i < catalog().len() && #[trigger] eq_ignore_ascii_case_spec(
                b,
                catalog()[i].bluetooth_name,
            );
        lemma_eq_ignore_case_chain(a, b, a);
        lemma_eq_ignore_case_chain(b, a, catalog()[i].bluetooth_name);
    }
}

} // verus!
