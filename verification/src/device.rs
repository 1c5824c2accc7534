//! The device descriptor: a logical device identity of name and direction,
//! parsed from and rendered to `"<name> (input|output)"` text.

use vstd::prelude::*;

use crate::errors::CaptureError;
use crate::text::{
    char_eq_ci, ends_with_ci, has_suffix_ci, is_space_char, trim_back, trim_front, trim_spec,
    trim_str,
};

verus! {

/// The direction of a device: capture or playback.
#[derive(Clone, Copy, Debug, PartialEq, Eq, Hash, Structural)]
pub enum DeviceType {
    Input,
    Output,
}

/// A logical device identity: a name and a direction.
#[derive(Clone, Debug, Eq, Hash)]
pub struct AudioDevice {
    pub name: String,
    pub device_type: DeviceType,
}

impl PartialEq for AudioDevice {
    fn eq(&self, other: &Self) -> (r: bool) {
        self.name == other.name && self.device_type == other.device_type
    }
}

impl vstd::std_specs::cmp::PartialEqSpecImpl for AudioDevice {
    open spec fn obeys_eq_spec() -> bool {
        true
    }

    open spec fn eq_spec(&self, other: &Self) -> bool {
        self.name@ == other.name@ && self.device_type == other.device_type
    }
}

/// The direction marker that parsing strips from an input device name.
pub open spec fn input_suffix() -> Seq<char> {
    "(input)"@
}

/// The direction marker that parsing strips from an output device name.
pub open spec fn output_suffix() -> Seq<char> {
    "(output)"@
}

/// The marker that rendering appends, a space included.
pub open spec fn rendered_suffix(t: DeviceType) -> Seq<char> {
    match t {
        DeviceType::Input => " (input)"@,
        DeviceType::Output => " (output)"@,
    }
}

/// The text that `render` produces for a name and a direction.
pub open spec fn format_spec(name: Seq<char>, t: DeviceType) -> Seq<char> {
    name + rendered_suffix(t)
}

/// What parsing a device string yields: the stored name and the direction,
/// or nothing when the text is empty, carries no direction marker, or names
/// nothing beside the marker.
pub open spec fn parse_spec(s: Seq<char>) -> Option<(Seq<char>, DeviceType)> {
    if trim_spec(s).len() == 0 {
        None
    } else if has_suffix_ci(s, input_suffix()) {
        let n = trim_spec(s.subrange(0, s.len() - input_suffix().len()));
        if n.len() == 0 {
            None
        } else {
            Some((n, DeviceType::Input))
        }
    } else if has_suffix_ci(s, output_suffix()) {
        let n = trim_spec(s.subrange(0, s.len() - output_suffix().len()));
        if n.len() == 0 {
            None
        } else {
            Some((n, DeviceType::Output))
        }
    } else {
        None
    }
}

/// How a parse result relates to the parsed text.
pub open spec fn parse_post(s: Seq<char>, r: Result<AudioDevice, CaptureError>) -> bool {
    match parse_spec(s) {
        Some(p) => r matches Ok(d) && d.name@ == p.0 && d.device_type == p.1,
        None => r == Result::<AudioDevice, CaptureError>::Err(CaptureError::InvalidDescriptor),
    }
}

impl AudioDevice {
    /// Wraps a name and a direction; the name is taken as given.
    pub fn new(name: String, device_type: DeviceType) -> (r: Self)
        ensures
            r.name@ == name@,
            r.device_type == device_type,
    {
        AudioDevice { name, device_type }
    }

    /// Parses `"<name> (input|output)"` text, the direction marker matched
    /// case-insensitively and stripped, the name trimmed.
    pub fn from_name(name: &str) -> (r: Result<Self, CaptureError>)
        ensures
            parse_post(name@, r),
    {
        let t = trim_str(name);
        if t.as_str().unicode_len() == 0 {
            return Err(CaptureError::InvalidDescriptor);
        }
        let n = name.unicode_len();
        if ends_with_ci(name, "(input)") {
            proof {
                reveal_strlit("(input)");
            }
            let stem = name.substring_char(0, n - 7);
            let nm = trim_str(stem);
            if nm.as_str().unicode_len() == 0 {
                return Err(CaptureError::InvalidDescriptor);
            }
            Ok(AudioDevice { name: nm, device_type: DeviceType::Input })
        } else if ends_with_ci(name, "(output)") {
            proof {
                reveal_strlit("(output)");
            }
            let stem = name.substring_char(0, n - 8);
            let nm = trim_str(stem);
            if nm.as_str().unicode_len() == 0 {
                return Err(CaptureError::InvalidDescriptor);
            }
            Ok(AudioDevice { name: nm, device_type: DeviceType::Output })
        } else {
            Err(CaptureError::InvalidDescriptor)
        }
    }

    /// Renders the descriptor as `"<name> (input)"` or `"<name> (output)"`;
    /// the result is both the display form and the resolver's match key.
    pub fn render(&self) -> (r: String)
        ensures
            r@ == format_spec(self.name@, self.device_type),
    {
        let mut out = String::from_str(self.name.as_str());
        match self.device_type {
            DeviceType::Input => out.append(" (input)"),
            DeviceType::Output => out.append(" (output)"),
        }
        out
    }
}

/// Parses a device string; the free-function form of `AudioDevice::from_name`.
pub fn parse_audio_device(name: &str) -> (r: Result<AudioDevice, CaptureError>)
    ensures
        parse_post(name@, r),
{
    AudioDevice::from_name(name)
}

/// A name that a descriptor can carry through a render/parse round trip:
/// non-empty and trimmed.
pub open spec fn wf_device_name(name: Seq<char>) -> bool {
    name.len() > 0 && !is_space_char(name[0]) && !is_space_char(name[name.len() - 1])
}

/// Parsing is a left inverse of rendering: for every well-formed name and
/// either direction, parsing the rendered text gives the descriptor back.
pub proof fn lemma_parse_render_round_trip(name: Seq<char>, t: DeviceType)
    requires
        wf_device_name(name),
    ensures
        parse_spec(format_spec(name, t)) == Some((name, t)),
{
    reveal_strlit("(input)");
    reveal_strlit("(output)");
    reveal_strlit(" (input)");
    reveal_strlit(" (output)");
    let s = format_spec(name, t);
    let sfx = rendered_suffix(t);
    assert(s.len() == name.len() + sfx.len());
    // The rendered text is already trimmed: it starts with the name's first
    // character and ends with the marker's closing parenthesis.
    assert(s[0] == name[0]);
    assert(s[s.len() - 1] == ')');
    assert(trim_front(s) == s);
    assert(trim_back(s) == s);
    assert(trim_spec(s).len() > 0);
    // The stripped stem is the name followed by one space, and trimming that
    // gives the name back.
    let stem = name.push(' ');
    assert(trim_front(stem) == stem);
    assert(stem.subrange(0, name.len() as int) =~= name);
    assert(trim_back(stem) == trim_back(name));
    assert(trim_back(name) == name);
    assert(trim_spec(stem) == name);
    match t {
        DeviceType::Input => {
            assert forall|i: int| 0 <= i < 7 implies char_eq_ci(
                s.subrange(s.len() - 7, s.len() as int)[i],
                input_suffix()[i],
            ) by {
                assert(s.subrange(s.len() - 7, s.len() as int)[i] == sfx[i + 1]);
            }
            assert(has_suffix_ci(s, input_suffix()));
            assert(s.subrange(0, s.len() - 7) =~= stem);
        },
        DeviceType::Output => {
            // The last seven characters read "utput)" after an 'o', so the
            // input marker does not match even case-insensitively.
            assert(s.subrange(s.len() - 7, s.len() as int)[0] == sfx[2]);
            assert(!char_eq_ci('o', '('));
            assert(!has_suffix_ci(s, input_suffix()));
            assert forall|i: int| 0 <= i < 8 implies char_eq_ci(
                s.subrange(s.len() - 8, s.len() as int)[i],
                output_suffix()[i],
            ) by {
                assert(s.subrange(s.len() - 8, s.len() as int)[i] == sfx[i + 1]);
            }
            assert(has_suffix_ci(s, output_suffix()));
            assert(s.subrange(0, s.len() - 8) =~= stem);
        },
    }
}

} // verus!
