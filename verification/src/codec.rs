//! Codec profiles: an encoder implementation's name and its default tuning.

use vstd::prelude::*;
use vstd::string::*;
use crate::source::CaptureMethod;

verus! {

/// A codec profile: the name of the encoder implementation to use, carrying
/// with it the default tuning options for that implementation.
#[derive(Debug)]
pub struct Codec(String);

impl View for Codec {
    type V = Seq<char>;

    /// A codec profile is abstractly its encoder name.
    closed spec fn view(&self) -> Seq<char> {
        self.0@
    }
}

/// The views of an option list's (key, value) pairs.
pub open spec fn option_views(settings: Seq<(String, String)>) -> Seq<(Seq<char>, Seq<char>)> {
    settings.map_values(|p: (String, String)| (p.0@, p.1@))
}

/// The default tuning of the profile named `name`: the hardware encoder
/// `h264_nvenc` is tuned for ultra-low-latency streaming (`preset p6`,
/// `tune ull`); every other profile starts from its library defaults.
pub open spec fn spec_default_settings(name: Seq<char>) -> Seq<(Seq<char>, Seq<char>)> {
    if name == "h264_nvenc"@ {
        seq![("preset"@, "p6"@), ("tune"@, "ull"@)]
    } else {
        Seq::empty()
    }
}

impl Codec {
    /// A profile for the encoder implementation with the given name.
    pub fn new(name: String) -> (c: Codec)
        ensures
            c@ == name@,
    {
        Codec(name)
    }

    /// The profile that matches a capture method: the GPU duplication path
    /// feeds the hardware encoder, the software path the platform encoder.
    pub fn for_capture(method: &CaptureMethod) -> (c: Codec)
        ensures
            *method is DXGI ==> c@ == "h264_nvenc"@,
            *method is AVFoundation ==> c@ == "h264_videotoolbox"@,
    {
        match method {
            CaptureMethod::DXGI => Codec(String::from_str("h264_nvenc")),
            CaptureMethod::AVFoundation => Codec(String::from_str("h264_videotoolbox")),
        }
    }

    /// This profile's default options, in the order they are applied.
    pub fn default_settings(&self) -> (settings: Vec<(String, String)>)
        ensures
            option_views(settings@) == spec_default_settings(self@),
    {
        let mut settings: Vec<(String, String)> = Vec::new();
        if self.0 == String::from_str("h264_nvenc") {
            settings.push((String::from_str("preset"), String::from_str("p6")));
            settings.push((String::from_str("tune"), String::from_str("ull")));
        }
        proof {
            assert(option_views(settings@) =~= spec_default_settings(self@));
        }
        settings
    }
}

impl Default for Codec {
    /// The default profile follows the default capture method.
    fn default() -> (c: Self)
        ensures
            c@ == "h264_nvenc"@,
    {
        Codec::for_capture(&CaptureMethod::DXGI)
    }
}

impl From<Codec> for String {
    /// A profile surrenders its encoder name.
    fn from(c: Codec) -> (r: String)
        ensures
            r@ == c@,
    {
        c.0
    }
}

impl vstd::std_specs::convert::FromSpecImpl<Codec> for String {
    open spec fn obeys_from_spec() -> bool {
        true
    }

    closed spec fn from_spec(c: Codec) -> String {
        c.0
    }
}

} // verus!
