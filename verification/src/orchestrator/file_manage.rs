//! Where a build puts its files: a directory of its own for each build,
//! named by the build's UUID.

use crate::decimal::digit_char;
use crate::text::joined;
use vstd::arithmetic::power2::pow2;
use vstd::prelude::*;
use vstd::string::StringExecFns;

verus! {

/// The hexadecimal digit for `n`, in lower case.
pub open spec fn hex_digit(n: nat) -> char
    recommends
        n < 16,
{
    if n < 10 {
        digit_char(n)
    } else {
        (n - 10 + 'a' as int) as char
    }
}

/// The hexadecimal digit of `value` at place `k` of its 32, the highest
/// being place 0.
pub open spec fn nibble(value: u128, k: int) -> nat
    recommends
        0 <= k < 32,
{
    (value as nat / pow2((4 * (31 - k)) as nat)) % 16
}

/// How many hyphens stand before place `i` of a UUID's text.
pub open spec fn hyphens_before(i: int) -> int {
    if i > 23 {
        4
    } else if i > 18 {
        3
    } else if i > 13 {
        2
    } else if i > 8 {
        1
    } else {
        0
    }
}

/// The text of the UUID `value`: its 32 hexadecimal digits in lower case,
/// the highest first, in groups of 8, 4, 4, 4 and 12 with a hyphen between
/// each two.
pub open spec fn uuid_text(value: u128) -> Seq<char> {
    Seq::new(
        36,
        |i: int|
            if i == 8 || i == 13 || i == 18 || i == 23 {
                '-'
            } else {
                hex_digit(nibble(value, i - hyphens_before(i)))
            },
    )
}

/// `uuid::Uuid::from_u128` followed by the `Display` of `uuid::Uuid`, which
/// writes the hyphenated form in lower case: the text of the UUID whose
/// 128 bits are `value`.
#[verifier::external_body]
fn hyphenated(value: u128) -> (s: String)
    ensures
        s@ == uuid_text(value),
{
    uuid::Uuid::from_u128(value).to_string()
}

/// `uuid::Uuid::new_v4` followed by `uuid::Uuid::as_u128`: the bits of a
/// random UUID. Whatever they are, they carry version 4 and the variant
/// of RFC 9562.
#[verifier::external_body]
pub(crate) fn random_uuid() -> (value: u128)
    ensures
        (value >> 76) & 0xf == 4,
        (value >> 62) & 0x3 == 2,
{
    uuid::Uuid::new_v4().as_u128()
}

/// The files that a build reads or writes.
#[derive(Debug, PartialEq, Eq, Clone, Copy, Structural)]
pub enum DestKind {
    Src,
    Asm,
    Obj,
    Exe,
    OutDir,
}

impl DestKind {
    /// The name of the file of this kind; empty for the directory itself.
    pub open spec fn file_name(self) -> Seq<char> {
        match self {
            DestKind::Src => "main.c"@,
            DestKind::Asm => "out.s"@,
            DestKind::Obj => "out.o"@,
            DestKind::Exe => "out"@,
            DestKind::OutDir => ""@,
        }
    }

    /// The name of the file of this kind, as the last part of its path.
    pub fn path(self) -> (name: &'static str)
        ensures
            name@ == self.file_name(),
    {
        match self {
            Self::Src => "main.c",
            Self::Asm => "out.s",
            Self::Obj => "out.o",
            Self::Exe => "out",
            Self::OutDir => "",
        }
    }
}

/// The output area of one build.
#[derive(Debug, PartialEq, Eq)]
pub struct Dest {
    uuid: u128,
    prefix: Option<String>,
    postfix: Option<String>,
}

/// What a `Dest` holds: the bits of the build's UUID, and what its
/// directory's name has before and behind the UUID.
pub struct DestView {
    pub uuid: u128,
    pub prefix: Option<Seq<char>>,
    pub postfix: Option<Seq<char>>,
}

impl DestView {
    /// What the directory's name is made of, in order.
    pub open spec fn name_parts(self) -> Seq<Seq<char>> {
        (match self.prefix {
            Some(p) => seq![p],
            None => Seq::empty(),
        }) + seq![uuid_text(self.uuid)] + (match self.postfix {
            Some(p) => seq![p],
            None => Seq::empty(),
        })
    }

    /// The name of the build's directory: the prefix if there is one, the
    /// UUID's text, and the postfix if there is one, with a hyphen between
    /// each two.
    pub open spec fn dir_name(self) -> Seq<char> {
        joined(self.name_parts(), "-"@)
    }

    /// What the path of the file of kind `kind` begins with, as parts below
    /// the project's directory: `assets`, `out` and the build's directory,
    /// or, for the source, which belongs to no build, `assets` and the
    /// source's name.
    pub open spec fn base_parts(self, kind: DestKind) -> Seq<Seq<char>> {
        if kind == DestKind::Src {
            seq!["assets"@, kind.file_name()]
        } else {
            seq!["assets"@, "out"@, self.dir_name()]
        }
    }

    /// The path of the file of kind `kind`, as parts below the project's
    /// directory: what `base_parts` gives, and the name of the file.
    pub open spec fn path_parts(self, kind: DestKind) -> Seq<Seq<char>> {
        self.base_parts(kind).push(kind.file_name())
    }
}

/// The texts of `parts`, each as a sequence of characters.
pub open spec fn texts(parts: Seq<String>) -> Seq<Seq<char>> {
    parts.map_values(|part: String| part@)
}

impl View for Dest {
    type V = DestView;

    closed spec fn view(&self) -> DestView {
        DestView {
            uuid: self.uuid,
            prefix: match self.prefix {
                Some(p) => Some(p@),
                None => None,
            },
            postfix: match self.postfix {
                Some(p) => Some(p@),
                None => None,
            },
        }
    }
}

impl Clone for Dest {
    fn clone(&self) -> (d: Self)
        ensures
            d@ == self@,
    {
        Dest {
            uuid: self.uuid,
            prefix: match &self.prefix {
                Some(p) => Some(p.clone()),
                None => None,
            },
            postfix: match &self.postfix {
                Some(p) => Some(p.clone()),
                None => None,
            },
        }
    }
}

impl Default for Dest {
    /// The output area of a new build: a random UUID of version 4, and
    /// nothing before or behind it.
    fn default() -> (d: Self)
        ensures
            d@.prefix is None,
            d@.postfix is None,
            (d@.uuid >> 76) & 0xf == 4,
            (d@.uuid >> 62) & 0x3 == 2,
    {
        Self::new(None, random_uuid(), None)
    }
}

impl Dest {
    /// The output area of the build with the UUID `uuid`, whose directory
    /// has `prefix` before the UUID in its name and `postfix` behind it.
    pub fn new(prefix: Option<String>, uuid: u128, postfix: Option<String>) -> (d: Self)
        ensures
            d@.uuid == uuid,
            d@.prefix == match prefix {
                Some(p) => Some(p@),
                None => None,
            },
            d@.postfix == match postfix {
                Some(p) => Some(p@),
                None => None,
            },
    {
        Self { uuid, prefix, postfix }
    }

    /// The bits of the build's UUID.
    pub fn uuid(&self) -> (uuid: u128)
        ensures
            uuid == self@.uuid,
    {
        self.uuid
    }

    /// The path of the file of kind `kind`, as parts below the project's
    /// directory.
    pub fn path(&self, kind: DestKind) -> (parts: Vec<String>)
        ensures
            texts(parts@) == self@.path_parts(kind),
    {
        let mut parts = self.base_of(kind);
        let ghost base = parts@;
        parts.push(String::from_str(kind.path()));
        assert(texts(parts@) =~= texts(base).push(kind.file_name()));
        parts
    }

    /// What the path of the file of kind `kind` begins with, as parts below
    /// the project's directory.
    pub fn base_of(&self, kind: DestKind) -> (parts: Vec<String>)
        ensures
            texts(parts@) == self@.base_parts(kind),
    {
        let mut assets: Vec<String> = Vec::new();
        assets.push(String::from_str("assets"));
        if kind == DestKind::Src {
            assets.push(String::from_str(kind.path()));
            assert(texts(assets@) =~= self@.base_parts(kind));
            return assets;
        }
        assets.push(String::from_str("out"));
        assets.push(self.uuid_part());
        assert(texts(assets@) =~= self@.base_parts(kind));
        assets
    }

    /// The name of the build's directory.
    pub fn uuid_part(&self) -> (name: String)
        ensures
            name@ == self@.dir_name(),
    {
        let mut dir_name = String::new();
        if let Some(prefix) = &self.prefix {
            dir_name.append(prefix.as_str());
            dir_name.append("-");
        }
        dir_name.append(hyphenated(self.uuid).as_str());
        if let Some(postfix) = &self.postfix {
            dir_name.append("-");
            dir_name.append(postfix.as_str());
        }
        proof {
            reveal_with_fuel(joined, 3);
            let parts = self@.name_parts();
            if parts.len() == 3 {
                assert(parts.drop_last().drop_last() =~= seq![parts[0]]);
            }
            assert(dir_name@ =~= self@.dir_name());
        }
        dir_name
    }
}

} // verus!
