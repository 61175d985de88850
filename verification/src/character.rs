//! The descriptive model: a character's narrative identity and its
//! human-readable rendering.

use vstd::prelude::*;

verus! {

/// The high-level description of a character: an "adjective"
/// descriptor, a "noun" character type with an optional flavor, and a
/// "verb" focus.
#[derive(Debug, Clone)]
pub struct Sentence {
    /// The "adjective" of the sentence
    pub descriptor: String,
    /// The "noun" of the sentence: the core character type
    pub character_type: String,
    /// An optional modifier that flavors the character type
    pub flavor: Option<String>,
    /// The "verb" of the sentence that rounds the character out
    pub focus: String,
}

impl Sentence {
    /// The parenthetical flavor segment, empty when no flavor is set.
    pub open spec fn flavor_text(self) -> Seq<char> {
        match self.flavor {
            Some(f) => " ("@ + f@ + ")"@,
            None => Seq::<char>::empty(),
        }
    }

    /// The rendered sentence: the descriptor, the character type, the
    /// flavor in parentheses when present, then the focus after
    /// `" who "`.
    pub open spec fn text(self) -> Seq<char> {
        self.descriptor@ + " "@ + self.character_type@ + self.flavor_text() + " who "@
            + self.focus@
    }

    /// Renders the sentence.
    pub fn render(&self) -> (r: String)
        ensures
            r@ == self.text(),
    {
        let mut s = String::new();
        s.append(self.descriptor.as_str());
        s.append(" ");
        s.append(self.character_type.as_str());
        match &self.flavor {
            Some(f) => {
                s.append(" (");
                s.append(f.as_str());
                s.append(")");
            },
            None => {},
        }
        s.append(" who ");
        s.append(self.focus.as_str());
        proof {
            assert(s@ =~= self.text());
        }
        s
    }
}

/// The entry point of the descriptive model: who the character is.
#[derive(Debug, Clone)]
pub struct Character {
    /// The name of the character
    pub name: String,
    /// The pronouns of the character
    pub pronouns: String,
    /// The sentence that describes the character
    pub sentence: Sentence,
}

impl Character {
    /// The rendered character line: the name, the pronouns in
    /// parentheses, then `" is a "` and the rendered sentence.
    pub open spec fn text(self) -> Seq<char> {
        self.name@ + " ("@ + self.pronouns@ + ") is a "@ + self.sentence.text()
    }

    /// Renders the character line.
    pub fn render(&self) -> (r: String)
        ensures
            r@ == self.text(),
    {
        let mut s = String::new();
        s.append(self.name.as_str());
        s.append(" (");
        s.append(self.pronouns.as_str());
        s.append(") is a ");
        let sentence = self.sentence.render();
        s.append(sentence.as_str());
        proof {
            assert(s@ =~= self.text());
        }
        s
    }

    /// Applies a partial update: each field that is given replaces the
    /// one held, each field that is not is kept. A given flavor is
    /// set; an absent one leaves the held flavor as it was.
    pub fn apply_update(
        &mut self,
        name: Option<String>,
        pronouns: Option<String>,
        descriptor: Option<String>,
        character_type: Option<String>,
        flavor: Option<String>,
        focus: Option<String>,
    )
        ensures
            final(self).name == (match name {
                Some(v) => v,
                None => old(self).name,
            }),
            final(self).pronouns == (match pronouns {
                Some(v) => v,
                None => old(self).pronouns,
            }),
            final(self).sentence.descriptor == (match descriptor {
                Some(v) => v,
                None => old(self).sentence.descriptor,
            }),
            final(self).sentence.character_type == (match character_type {
                Some(v) => v,
                None => old(self).sentence.character_type,
            }),
            final(self).sentence.flavor == (match flavor {
                Some(v) => Some(v),
                None => old(self).sentence.flavor,
            }),
            final(self).sentence.focus == (match focus {
                Some(v) => v,
                None => old(self).sentence.focus,
            }),
    {
        match name {
            Some(v) => {
                self.name = v;
            },
            None => {},
        }
        match pronouns {
            Some(v) => {
                self.pronouns = v;
            },
            None => {},
        }
        match descriptor {
            Some(v) => {
                self.sentence.descriptor = v;
            },
            None => {},
        }
        match character_type {
            Some(v) => {
                self.sentence.character_type = v;
            },
            None => {},
        }
        match flavor {
            Some(v) => {
                self.sentence.flavor = Some(v);
            },
            None => {},
        }
        match focus {
            Some(v) => {
                self.sentence.focus = v;
            },
            None => {},
        }
    }
}

} // verus!
