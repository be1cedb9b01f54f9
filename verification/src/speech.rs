//! Spoken summaries of papers: voices and summary kinds.

use vstd::prelude::*;
use crate::notification::{invalid_code_error, invalid_code_message};

verus! {

/// Voice in which a summary is read.
#[derive(Debug, Clone, Copy, PartialEq, Eq, Structural)]
pub enum VoiceType {
    Alloy,
    Ash,
    Coral,
    Echo,
    Fable,
    Onyx,
    Nova,
    Sage,
    Shimmer,
}

impl Default for VoiceType {
    fn default() -> (r: Self)
        ensures
            r == VoiceType::Alloy,
    {
        VoiceType::Alloy
    }
}

/// The code under which a value is stored: its position in the declaration.
pub open spec fn voice_type_code(v: VoiceType) -> i16 {
    match v {
        VoiceType::Alloy => 0,
        VoiceType::Ash => 1,
        VoiceType::Coral => 2,
        VoiceType::Echo => 3,
        VoiceType::Fable => 4,
        VoiceType::Onyx => 5,
        VoiceType::Nova => 6,
        VoiceType::Sage => 7,
        VoiceType::Shimmer => 8,
    }
}

/// The value stored under a code, if the code is one of `0..=8`.
pub open spec fn voice_type_of_code(code: i16) -> Option<VoiceType> {
    if code == 0 {
        Some(VoiceType::Alloy)
    } else if code == 1 {
        Some(VoiceType::Ash)
    } else if code == 2 {
        Some(VoiceType::Coral)
    } else if code == 3 {
        Some(VoiceType::Echo)
    } else if code == 4 {
        Some(VoiceType::Fable)
    } else if code == 5 {
        Some(VoiceType::Onyx)
    } else if code == 6 {
        Some(VoiceType::Nova)
    } else if code == 7 {
        Some(VoiceType::Sage)
    } else if code == 8 {
        Some(VoiceType::Shimmer)
    } else {
        None
    }
}

impl VoiceType {
    /// Reads a value back from its stored code; other codes are refused with a message
    /// naming the type and the code.
    pub fn try_from(value: i16) -> (r: Result<Self, String>)
        ensures
            voice_type_of_code(value) matches Some(v) ==> r == Ok::<Self, String>(v),
            voice_type_of_code(value) is None ==> (r matches Err(e) && e@ == invalid_code_message(
                "VoiceType"@,
                value as int,
            )),
    {
        match value {
            0 => Ok(Self::Alloy),
            1 => Ok(Self::Ash),
            2 => Ok(Self::Coral),
            3 => Ok(Self::Echo),
            4 => Ok(Self::Fable),
            5 => Ok(Self::Onyx),
            6 => Ok(Self::Nova),
            7 => Ok(Self::Sage),
            8 => Ok(Self::Shimmer),
            _ => Err(invalid_code_error("VoiceType", value as i32)),
        }
    }

    /// The name of the value as the speech service expects it.
    pub fn to_string(&self) -> (s: String)
        ensures
            s@ == voice_type_name(*self),
    {
        match self {
            VoiceType::Alloy => String::from_str("alloy"),
            VoiceType::Ash => String::from_str("ash"),
            VoiceType::Coral => String::from_str("coral"),
            VoiceType::Echo => String::from_str("echo"),
            VoiceType::Fable => String::from_str("fable"),
            VoiceType::Onyx => String::from_str("onyx"),
            VoiceType::Nova => String::from_str("nova"),
            VoiceType::Sage => String::from_str("sage"),
            VoiceType::Shimmer => String::from_str("shimmer"),
        }
    }
}

/// The lower-case name under which a value is sent to the speech service.
pub open spec fn voice_type_name(v: VoiceType) -> Seq<char> {
    match v {
        VoiceType::Alloy => "alloy"@,
        VoiceType::Ash => "ash"@,
        VoiceType::Coral => "coral"@,
        VoiceType::Echo => "echo"@,
        VoiceType::Fable => "fable"@,
        VoiceType::Onyx => "onyx"@,
        VoiceType::Nova => "nova"@,
        VoiceType::Sage => "sage"@,
        VoiceType::Shimmer => "shimmer"@,
    }
}

/// A value read back from its stored code is the value that was stored, and every code
/// in `0..=8` is the code of the value read from it.
pub proof fn lemma_voice_type_codes(v: VoiceType, code: i16)
    ensures
        voice_type_of_code(voice_type_code(v)) == Some(v),
        voice_type_of_code(code) matches Some(w) ==> voice_type_code(w) == code,
        voice_type_of_code(code) is Some <==> 0 <= code <= 8,
{
}

/// Audience level of a spoken summary.
#[derive(Debug, Clone, Copy, PartialEq, Eq, Structural)]
pub enum SpeechType {
    ChildSummary,
    CollegeSummary,
    PhDSummary,
    ErrorSummary,
}

impl Default for SpeechType {
    fn default() -> (r: Self)
        ensures
            r == SpeechType::ChildSummary,
    {
        SpeechType::ChildSummary
    }
}

/// The code under which a value is stored: its position in the declaration.
pub open spec fn speech_type_code(v: SpeechType) -> i16 {
    match v {
        SpeechType::ChildSummary => 0,
        SpeechType::CollegeSummary => 1,
        SpeechType::PhDSummary => 2,
        SpeechType::ErrorSummary => 3,
    }
}

/// The value stored under a code, if the code is one of `0..=3`.
pub open spec fn speech_type_of_code(code: i16) -> Option<SpeechType> {
    if code == 0 {
        Some(SpeechType::ChildSummary)
    } else if code == 1 {
        Some(SpeechType::CollegeSummary)
    } else if code == 2 {
        Some(SpeechType::PhDSummary)
    } else if code == 3 {
        Some(SpeechType::ErrorSummary)
    } else {
        None
    }
}

impl SpeechType {
    /// Reads a value back from its stored code; other codes are refused with a message
    /// naming the type and the code.
    pub fn try_from(value: i16) -> (r: Result<Self, String>)
        ensures
            speech_type_of_code(value) matches Some(v) ==> r == Ok::<Self, String>(v),
            speech_type_of_code(value) is None ==> (r matches Err(e) && e@ == invalid_code_message(
                "SpeechType"@,
                value as int,
            )),
    {
        match value {
            0 => Ok(Self::ChildSummary),
            1 => Ok(Self::CollegeSummary),
            2 => Ok(Self::PhDSummary),
            3 => Ok(Self::ErrorSummary),
            _ => Err(invalid_code_error("SpeechType", value as i32)),
        }
    }
}

/// A value read back from its stored code is the value that was stored, and every code
/// in `0..=3` is the code of the value read from it.
pub proof fn lemma_speech_type_codes(v: SpeechType, code: i16)
    ensures
        speech_type_of_code(speech_type_code(v)) == Some(v),
        speech_type_of_code(code) matches Some(w) ==> speech_type_code(w) == code,
        speech_type_of_code(code) is Some <==> 0 <= code <= 3,
{
}

} // verus!
