//! The three closed enumerations the platform reports as raw integers, and
//! their rendering to human-readable names. Each renderer is total on its
//! known domain and rejects every other integer instead of defaulting.

use vstd::prelude::*;

verus! {

/// An integer reported for one of the closed enumerations that lies outside
/// that enumeration's known domain.
#[derive(Clone, Copy, Debug, PartialEq, Eq, Structural)]
pub struct InvalidEnumValue {
    pub value: i32,
}

/// The name of an auto-repeat mode, on its domain of zero to two.
pub open spec fn auto_repeat_mode_name_spec(v: int) -> Seq<char> {
    if v == 0 {
        "None"@
    } else if v == 1 {
        "Track"@
    } else {
        "List"@
    }
}

/// The name of a playback status, on its domain of zero to five.
pub open spec fn playback_status_name_spec(v: int) -> Seq<char> {
    if v == 0 {
        "Closed"@
    } else if v == 1 {
        "Opened"@
    } else if v == 2 {
        "Changing"@
    } else if v == 3 {
        "Stopped"@
    } else if v == 4 {
        "Playing"@
    } else {
        "Paused"@
    }
}

/// The name of a playback type, on its domain of zero to three.
pub open spec fn playback_type_name_spec(v: int) -> Seq<char> {
    if v == 0 {
        "Unknown"@
    } else if v == 1 {
        "Music"@
    } else if v == 2 {
        "Video"@
    } else {
        "Image"@
    }
}

/// Renders an auto-repeat mode; any integer outside zero to two is rejected.
pub fn auto_repeat_mode_name(v: i32) -> (r: Result<&'static str, InvalidEnumValue>)
    ensures
        r is Ok <==> 0 <= v <= 2,
        r matches Ok(s) ==> s@ == auto_repeat_mode_name_spec(v as int),
        r matches Err(e) ==> e == (InvalidEnumValue { value: v }),
{
    if v == 0 {
        Ok("None")
    } else if v == 1 {
        Ok("Track")
    } else if v == 2 {
        Ok("List")
    } else {
        Err(InvalidEnumValue { value: v })
    }
}

/// Renders a playback status; any integer outside zero to five is rejected.
pub fn playback_status_name(v: i32) -> (r: Result<&'static str, InvalidEnumValue>)
    ensures
        r is Ok <==> 0 <= v <= 5,
        r matches Ok(s) ==> s@ == playback_status_name_spec(v as int),
        r matches Err(e) ==> e == (InvalidEnumValue { value: v }),
{
    if v == 0 {
        Ok("Closed")
    } else if v == 1 {
        Ok("Opened")
    } else if v == 2 {
        Ok("Changing")
    } else if v == 3 {
        Ok("Stopped")
    } else if v == 4 {
        Ok("Playing")
    } else if v == 5 {
        Ok("Paused")
    } else {
        Err(InvalidEnumValue { value: v })
    }
}

/// Renders a playback type; any integer outside zero to three is rejected.
pub fn playback_type_name(v: i32) -> (r: Result<&'static str, InvalidEnumValue>)
    ensures
        r is Ok <==> 0 <= v <= 3,
        r matches Ok(s) ==> s@ == playback_type_name_spec(v as int),
        r matches Err(e) ==> e == (InvalidEnumValue { value: v }),
{
    if v == 0 {
        Ok("Unknown")
    } else if v == 1 {
        Ok("Music")
    } else if v == 2 {
        Ok("Video")
    } else if v == 3 {
        Ok("Image")
    } else {
        Err(InvalidEnumValue { value: v })
    }
}

/// The playback-type name for an integer already known to be in the domain.
pub fn playback_type_str(t: i32) -> (s: &'static str)
    requires
        0 <= t <= 3,
    ensures
        s@ == playback_type_name_spec(t as int),
{
    if t == 0 {
        "Unknown"
    } else if t == 1 {
        "Music"
    } else if t == 2 {
        "Video"
    } else {
        "Image"
    }
}

} // verus!
