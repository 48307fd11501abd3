//! The languages of link targets.

use crate::text::same_text;
use vstd::prelude::*;

verus! {

/// The language that a link's target is written in.
#[derive(Clone, Copy, Debug, PartialEq, Eq, Hash, Structural)]
pub enum Lang {
    /// English as written in the United States.
    EnUs,
    /// English as written in the United Kingdom.
    EnUk,
    /// English as written in Australia.
    EnAu,
}

/// Failed to parse Lang.
#[derive(Clone, Copy, Debug, PartialEq, Eq, Structural)]
pub struct LangParseError;

impl LangParseError {
    /// What to tell a reader about this error.
    pub fn message(&self) -> (text: &'static str)
        ensures
            text@ == "Failed to parse Lang"@,
    {
        "Failed to parse Lang"
    }
}

impl Lang {
    /// The text that stands for this value in a record.
    pub open spec fn text(self) -> Seq<char> {
        match self {
            Lang::EnUs => "EnUs"@,
            Lang::EnUk => "EnUk"@,
            Lang::EnAu => "EnAu"@,
        }
    }

    /// The value that a text stands for, if it stands for one.
    pub open spec fn of_text(text: Seq<char>) -> Option<Lang> {
        if text == "EnUs"@ {
            Some(Lang::EnUs)
        } else if text == "EnUk"@ {
            Some(Lang::EnUk)
        } else if text == "EnAu"@ {
            Some(Lang::EnAu)
        } else {
            None
        }
    }

    /// The text that stands for this value in a record.
    pub fn as_str(&self) -> (text: &'static str)
        ensures
            text@ == self.text(),
    {
        match self {
            Lang::EnUs => "EnUs",
            Lang::EnUk => "EnUk",
            Lang::EnAu => "EnAu",
        }
    }

    /// Reads a value from the text that stands for it. Any other text is
    /// turned down.
    pub fn parse(text: &str) -> (r: Result<Lang, LangParseError>)
        ensures
            match Lang::of_text(text@) {
                Some(value) => r == Ok::<Lang, LangParseError>(value),
                None => r == Err::<Lang, LangParseError>(LangParseError),
            },
    {
        if same_text(text, "EnUs") {
            Ok(Lang::EnUs)
        } else if same_text(text, "EnUk") {
            Ok(Lang::EnUk)
        } else if same_text(text, "EnAu") {
            Ok(Lang::EnAu)
        } else {
            Err(LangParseError)
        }
    }

    /// Reading back the text of a value gives that value.
    pub proof fn lemma_text_round_trip(self)
        ensures
            Lang::of_text(self.text()) == Some(self),
    {
        reveal_strlit("EnUs");
        reveal_strlit("EnUk");
        reveal_strlit("EnAu");
        assert("EnUs"@.len() == 4);
        assert("EnUk"@.len() == 4);
        assert("EnAu"@.len() == 4);
        assert("EnUs"@[3] != "EnUk"@[3]);
        assert("EnUs"@[2] != "EnAu"@[2]);
        assert("EnUk"@[2] != "EnAu"@[2]);
    }
}

impl core::str::FromStr for Lang {
    type Err = LangParseError;

    /// Reads a value from the text that stands for it, as [`Lang::parse`]
    /// does.
    fn from_str(s: &str) -> (r: Result<Lang, LangParseError>)
        ensures
            match Lang::of_text(s@) {
                Some(value) => r == Ok::<Lang, LangParseError>(value),
                None => r == Err::<Lang, LangParseError>(LangParseError),
            },
    {
        Lang::parse(s)
    }
}

} // verus!
