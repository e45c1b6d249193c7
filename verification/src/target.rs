//! Platform triples: `architecture-vendor-system`, with an optional ABI as a
//! fourth part.

use crate::error::{viewed, BuildError, BuildErrorView};
use crate::text::{
    free_of, joined, lemma_joined_pieces, lemma_pieces_joined, pieces, same_text, split,
};
use vstd::prelude::*;

verus! {

/// A platform that code is built for or on.
#[derive(Debug, PartialEq, Eq)]
pub struct Target {
    pub architecture: String,
    pub vendor: String,
    pub system: String,
    pub abi: Option<String>,
}

/// A [`Target`] with its fields as character sequences.
pub struct TargetView {
    pub architecture: Seq<char>,
    pub vendor: Seq<char>,
    pub system: Seq<char>,
    pub abi: Option<Seq<char>>,
}

impl View for Target {
    type V = TargetView;

    open spec fn view(&self) -> TargetView {
        TargetView {
            architecture: self.architecture@,
            vendor: self.vendor@,
            system: self.system@,
            abi: match self.abi {
                Some(abi) => Some(abi@),
                None => None,
            },
        }
    }
}

impl TargetView {
    /// What a triple's text stands for: its first three parts, and the fourth
    /// as the ABI where there is one. Parts after the fourth are dropped.
    /// A text of fewer than three parts stands for no platform.
    pub open spec fn parse(text: Seq<char>) -> Result<TargetView, BuildErrorView> {
        let parts = pieces(text, '-');
        if parts.len() < 3 {
            Err(BuildErrorView::MalformedTriple { input: text })
        } else {
            Ok(
                TargetView {
                    architecture: parts[0],
                    vendor: parts[1],
                    system: parts[2],
                    abi: if parts.len() > 3 {
                        Some(parts[3])
                    } else {
                        None
                    },
                },
            )
        }
    }

    /// True when architecture, vendor and system are all named.
    pub open spec fn is_complete(self) -> bool {
        self.architecture.len() > 0 && self.vendor.len() > 0 && self.system.len() > 0
    }

    /// True when the system is spelled `windows`, letter for letter.
    pub open spec fn is_windows(self) -> bool {
        self.system == "windows"@
    }

    /// `architecture-vendor-system`, without the ABI.
    pub open spec fn triplet(self) -> Seq<char> {
        self.architecture + seq!['-'] + self.vendor + seq!['-'] + self.system
    }

    /// `architecture-vendor-system`, followed by `-abi` where there is one.
    pub open spec fn display(self) -> Seq<char> {
        match self.abi {
            Some(abi) => self.triplet() + seq!['-'] + abi,
            None => self.triplet(),
        }
    }

    /// The file name under which the platform keeps the static library
    /// `name`: `name.lib` on Windows, `libname.a` elsewhere.
    pub open spec fn library_filename(self, name: Seq<char>) -> Seq<char> {
        if self.is_windows() {
            name + ".lib"@
        } else {
            "lib"@ + name + ".a"@
        }
    }
}

/// Reads a platform triple.
///
/// The text is cut at every `-`. It is refused when that gives fewer than
/// three parts; the error then carries the text.
pub fn parse_target(triple: &str) -> (result: Result<Target, BuildError>)
    ensures
        viewed(result) == TargetView::parse(triple@),
        result is Ok <==> pieces(triple@, '-').len() >= 3,
{
    let parts = split(triple, '-');
    if parts.len() < 3 {
        return Err(BuildError::MalformedTriple { input: triple.to_owned() });
    }
    let abi = if parts.len() > 3 {
        Some(parts[3].clone())
    } else {
        None
    };
    Ok(
        Target {
            architecture: parts[0].clone(),
            vendor: parts[1].clone(),
            system: parts[2].clone(),
            abi,
        },
    )
}

impl Clone for Target {
    fn clone(&self) -> (copy: Target)
        ensures
            copy@ == self@,
    {
        Target {
            architecture: self.architecture.clone(),
            vendor: self.vendor.clone(),
            system: self.system.clone(),
            abi: match &self.abi {
                Some(abi) => Some(abi.clone()),
                None => None,
            },
        }
    }
}

impl Target {
    /// Whether the system is Windows: spelled `windows`, nothing else.
    pub fn is_windows(&self) -> (windows: bool)
        ensures
            windows == self@.is_windows(),
    {
        same_text(self.system.as_str(), "windows")
    }

    /// The file name of the static library `name` on this platform:
    /// `name.lib` on Windows, `libname.a` elsewhere.
    pub fn library_to_filename(&self, name: &str) -> (file: String)
        ensures
            file@ == self@.library_filename(name@),
    {
        if self.is_windows() {
            let mut file = name.to_owned();
            file.append(".lib");
            file
        } else {
            let mut file = String::from_str("lib");
            file.append(name);
            file.append(".a");
            file
        }
    }

    /// The four fields as borrowed text.
    pub fn as_strs(&self) -> (fields: (&str, &str, &str, Option<&str>))
        ensures
            fields.0@ == self.architecture@,
            fields.1@ == self.vendor@,
            fields.2@ == self.system@,
            match fields.3 {
                Some(abi) => self@.abi == Some(abi@),
                None => self@.abi is None,
            },
    {
        let abi = match &self.abi {
            Some(abi) => Some(abi.as_str()),
            None => None,
        };
        (self.architecture.as_str(), self.vendor.as_str(), self.system.as_str(), abi)
    }

    /// `architecture-vendor-system`: the triple without its ABI.
    pub fn to_triplet(&self) -> (text: String)
        ensures
            text@ == self@.triplet(),
    {
        proof {
            lemma_hyphen();
        }
        let mut text = self.architecture.clone();
        text.append("-");
        text.append(self.vendor.as_str());
        text.append("-");
        text.append(self.system.as_str());
        text
    }

    /// The triple as it is written: the triplet, and `-abi` after it where
    /// the target has an ABI.
    pub fn to_string(&self) -> (text: String)
        ensures
            text@ == self@.display(),
    {
        proof {
            lemma_hyphen();
        }
        let mut text = self.to_triplet();
        match &self.abi {
            Some(abi) => {
                text.append("-");
                text.append(abi.as_str());
            },
            None => {},
        }
        text
    }
}

/// The text `"-"` is the single character `-`.
pub proof fn lemma_hyphen()
    ensures
        "-"@ == seq!['-'],
{
    reveal_strlit("-");
}

/// Joining three parts with `-` is writing them with a `-` after the first
/// and after the second.
proof fn lemma_joined_three(a: Seq<char>, b: Seq<char>, c: Seq<char>)
    ensures
        joined(seq![a, b, c], '-') == a + seq!['-'] + b + seq!['-'] + c,
{
    let three = seq![a, b, c];
    let two = seq![a, b];
    let one = seq![a];
    assert(three.drop_last() == two);
    assert(two.drop_last() == one);
    assert(joined(one, '-') == a);
    assert(joined(two, '-') == a + seq!['-'] + b);
}

/// Any three or more parts, none of which holds a `-`, are read back from
/// their join: the first three as architecture, vendor and system, the
/// fourth as the ABI, which is absent where there are exactly three.
pub proof fn lemma_parse_of_parts(parts: Seq<Seq<char>>)
    requires
        parts.len() >= 3,
        forall|k: int| 0 <= k < parts.len() ==> free_of(#[trigger] parts[k], '-'),
    ensures
        TargetView::parse(joined(parts, '-')) matches Ok(target) && target.architecture == parts[0]
            && target.vendor == parts[1] && target.system == parts[2] && (parts.len() == 3
            ==> target.abi is None) && (parts.len() > 3 ==> target.abi == Some(parts[3])),
{
    lemma_pieces_joined(parts, '-');
}

/// Fewer than three parts are never read as a target, whatever they hold.
pub proof fn lemma_too_few_parts(parts: Seq<Seq<char>>)
    requires
        parts.len() < 3,
        forall|k: int| 0 <= k < parts.len() ==> free_of(#[trigger] parts[k], '-'),
    ensures
        TargetView::parse(joined(parts, '-')) matches Err(error) && error
            == (BuildErrorView::MalformedTriple { input: joined(parts, '-') }),
{
    if parts.len() > 0 {
        lemma_pieces_joined(parts, '-');
    }
}

/// The triplet of a target that was read from `text` is the first three
/// parts of `text` joined by `-`, with or without an ABI.
pub proof fn lemma_triplet_of_parsed(text: Seq<char>)
    ensures
        TargetView::parse(text) matches Ok(target) ==> target.triplet() == joined(
            pieces(text, '-').take(3),
            '-',
        ),
{
    let parts = pieces(text, '-');
    if parts.len() >= 3 {
        assert(parts.take(3) == seq![parts[0], parts[1], parts[2]]);
        lemma_joined_three(parts[0], parts[1], parts[2]);
    }
}

/// A triple of three or four parts is written back as it was read.
pub proof fn lemma_display_of_parsed(text: Seq<char>)
    requires
        3 <= pieces(text, '-').len() <= 4,
    ensures
        TargetView::parse(text) matches Ok(target) && target.display() == text,
{
    let parts = pieces(text, '-');
    lemma_joined_pieces(text, '-');
    lemma_joined_three(parts[0], parts[1], parts[2]);
    if parts.len() == 3 {
        assert(parts == seq![parts[0], parts[1], parts[2]]);
    } else {
        assert(parts.drop_last() == seq![parts[0], parts[1], parts[2]]);
    }
}

/// A target whose fields hold no `-` is read back from what it is written
/// as.
pub proof fn lemma_parse_of_display(target: TargetView)
    requires
        free_of(target.architecture, '-'),
        free_of(target.vendor, '-'),
        free_of(target.system, '-'),
        target.abi matches Some(abi) ==> free_of(abi, '-'),
    ensures
        TargetView::parse(target.display()) == Ok::<TargetView, BuildErrorView>(target),
{
    let three = seq![target.architecture, target.vendor, target.system];
    lemma_joined_three(target.architecture, target.vendor, target.system);
    match target.abi {
        Some(abi) => {
            let four = three.push(abi);
            assert(four.drop_last() == three);
            lemma_pieces_joined(four, '-');
        },
        None => {
            lemma_pieces_joined(three, '-');
        },
    }
}

/// A target that was read from `text` names architecture, vendor and system
/// exactly when none of the first three parts of `text` is empty.
pub proof fn lemma_complete_of_parsed(text: Seq<char>)
    ensures
        TargetView::parse(text) matches Ok(target) ==> (target.is_complete() <==> forall|k: int|
            0 <= k < 3 ==> (#[trigger] pieces(text, '-')[k]).len() > 0),
{
}

} // verus!
