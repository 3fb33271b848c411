//! The capability catalog: the closed namespace of requestable capabilities,
//! and the resolution of raw capability requests (flat names and grouped
//! shorthand) into catalog entries.

use vstd::prelude::*;
use vstd::string::StringExecFns;

use crate::attrs::{
    Attribute, Meta, path_views, spec_is_attr_with_path, spec_meta_content_by_path,
    get_meta_content_by_path, is_attr_with_path,
};
use crate::text::str_eq;

verus! {

/// A malformed or unrecognized capability request; fatal for the whole
/// declaration.
#[derive(Debug)]
pub enum CatalogError {
    /// The capability name is not in the catalog; carries the offending name.
    UnknownCapability(String),
    /// The request is written in a nesting form the catalog does not
    /// recognize; carries the display text of the offending request.
    UnsupportedGroupedForm(String),
}

/// One auto-derive capability target of the catalog.
#[derive(Debug, Clone, Copy, PartialEq, Eq, PartialOrd, Ord, Hash, Structural)]
pub enum Derive {
    /// `std::ops::Add<Outer> for Outer`.
    AddSelf,
    /// `std::ops::Add<Inner> for Outer`.
    AddInner,
    /// `std::ops::Add<Outer> for Inner`.
    AddInnerRev,
    /// `std::ops::Add<Outer> for Outer` variations.
    AddRefSelf,
    /// `std::ops::Add<Inner> for Outer` variations.
    AddRefInner,
    /// `std::ops::Add<Outer> for Inner` variations.
    AddRefInnerRev,
    /// `std::ops::AddAssign<Outer> for Outer`.
    AddAssignSelf,
    /// `std::ops::AddAssign<Inner> for Outer`.
    AddAssignInner,
    /// `std::ops::AddAssign<&Outer> for Outer`.
    AddAssignRefSelf,
    /// `std::ops::AddAssign<&Inner> for Outer`.
    AddAssignRefInner,
    /// `std::ops::Div<Outer> for Outer`.
    DivSelf,
    /// `std::ops::Div<Inner> for Outer`.
    DivInner,
    /// `std::ops::Div<Outer> for Inner`.
    DivInnerRev,
    /// `std::ops::Div<Outer> for Outer` variations.
    DivRefSelf,
    /// `std::ops::Div<Inner> for Outer` variations.
    DivRefInner,
    /// `std::ops::Div<Outer> for Inner` variations.
    DivRefInnerRev,
    /// `std::ops::DivAssign<Outer> for Outer`.
    DivAssignSelf,
    /// `std::ops::DivAssign<Inner> for Outer`.
    DivAssignInner,
    /// `std::ops::DivAssign<&Outer> for Outer`.
    DivAssignRefSelf,
    /// `std::ops::DivAssign<&Inner> for Outer`.
    DivAssignRefInner,
    /// `std::ops::Mul<Outer> for Outer`.
    MulSelf,
    /// `std::ops::Mul<Inner> for Outer`.
    MulInner,
    /// `std::ops::Mul<Outer> for Inner`.
    MulInnerRev,
    /// `std::ops::Mul<Outer> for Outer` variations.
    MulRefSelf,
    /// `std::ops::Mul<Inner> for Outer` variations.
    MulRefInner,
    /// `std::ops::Mul<Outer> for Inner` variations.
    MulRefInnerRev,
    /// `std::ops::MulAssign<Outer> for Outer`.
    MulAssignSelf,
    /// `std::ops::MulAssign<Inner> for Outer`.
    MulAssignInner,
    /// `std::ops::MulAssign<&Outer> for Outer`.
    MulAssignRefSelf,
    /// `std::ops::MulAssign<&Inner> for Outer`.
    MulAssignRefInner,
    /// `std::ops::Rem<Outer> for Outer`.
    RemSelf,
    /// `std::ops::Rem<Inner> for Outer`.
    RemInner,
    /// `std::ops::Rem<Outer> for Inner`.
    RemInnerRev,
    /// `std::ops::Rem<Outer> for Outer` variations.
    RemRefSelf,
    /// `std::ops::Rem<Inner> for Outer` variations.
    RemRefInner,
    /// `std::ops::Rem<Outer> for Inner` variations.
    RemRefInnerRev,
    /// `std::ops::RemAssign<Outer> for Outer`.
    RemAssignSelf,
    /// `std::ops::RemAssign<Inner> for Outer`.
    RemAssignInner,
    /// `std::ops::RemAssign<&Outer> for Outer`.
    RemAssignRefSelf,
    /// `std::ops::RemAssign<&Inner> for Outer`.
    RemAssignRefInner,
    /// `std::ops::Sub<Outer> for Outer`.
    SubSelf,
    /// `std::ops::Sub<Inner> for Outer`.
    SubInner,
    /// `std::ops::Sub<Outer> for Inner`.
    SubInnerRev,
    /// `std::ops::Sub<Outer> for Outer` variations.
    SubRefSelf,
    /// `std::ops::Sub<Inner> for Outer` variations.
    SubRefInner,
    /// `std::ops::Sub<Outer> for Inner` variations.
    SubRefInnerRev,
    /// `std::ops::SubAssign<Outer> for Outer`.
    SubAssignSelf,
    /// `std::ops::SubAssign<Inner> for Outer`.
    SubAssignInner,
    /// `std::ops::SubAssign<&Outer> for Outer`.
    SubAssignRefSelf,
    /// `std::ops::SubAssign<&Inner> for Outer`.
    SubAssignRefInner,
    /// `std::ascii::AsciiExt for Outer`.
    AsciiExt,
    /// `AsMut<DerefTarget> for Outer`.
    AsMutDeref,
    /// `AsMut<Inner> for Outer`.
    AsMutInner,
    /// `AsMut<Outer> for Outer`.
    AsMutSelf,
    /// `AsRef<DerefTarget> for Outer`.
    AsRefDeref,
    /// `AsRef<Inner> for Outer`.
    AsRefInner,
    /// `AsRef<Self> for Outer`.
    AsRefSelf,
    /// `std::fmt::Binary for Outer`.
    Binary,
    /// `Default for &Outer`.
    DefaultRef,
    /// `std::ops::Deref for Outer`.
    Deref,
    /// `std::ops::DerefMut for Outer`.
    DerefMut,
    /// `std::fmt::Display for Outer`.
    Display,
    /// `From<Inner> for Outer`.
    FromInner,
    /// `From<Outer> for Arc<Outer>`.
    IntoArc,
    /// `From<Outer> for Box<Outer>`.
    IntoBox,
    /// `From<Outer> for Inner`.
    IntoInner,
    /// `From<Outer> for Rc<Outer>`.
    IntoRc,
    /// `std::fmt::LowerExp for Outer`.
    LowerExp,
    /// `std::fmt::LowerHex for Outer`.
    LowerHex,
    /// `std::fmt::Octal for Outer`.
    Octal,
    /// `PartialEq<Inner> for Outer` and similar ones.
    PartialEqInner,
    /// `PartialEq<Outer> for Inner` and similar ones.
    PartialEqInnerRev,
    /// `PartialEq<Cow<Inner>> for Outer` and similar ones.
    PartialEqInnerCow,
    /// `PartialEq<Outer> for Cow<Inner>` and similar ones.
    PartialEqInnerCowRev,
    /// `PartialEq<Outer> for Outer` and similar ones.
    PartialEqSelf,
    /// `PartialEq<Cow<Outer>> for Outer` and similar ones.
    PartialEqSelfCow,
    /// `PartialEq<Outer> for Cow<Outer>` and similar ones.
    PartialEqSelfCowRev,
    /// `PartialEq<Cow<Outer>> for Inner` and similar ones.
    PartialEqSelfCowAndInner,
    /// `PartialEq<Inner> for Cow<Outer>` and similar ones.
    PartialEqSelfCowAndInnerRev,
    /// `PartialOrd<Inner> for Outer` and similar ones.
    PartialOrdInner,
    /// `PartialOrd<Outer> for Inner` and similar ones.
    PartialOrdInnerRev,
    /// `PartialOrd<Cow<Inner>> for Outer` and similar ones.
    PartialOrdInnerCow,
    /// `PartialOrd<Outer> for Cow<Inner>` and similar ones.
    PartialOrdInnerCowRev,
    /// `PartialOrd<Outer> for Outer` and similar ones.
    PartialOrdSelf,
    /// `PartialOrd<Cow<Outer>> for Outer` and similar ones.
    PartialOrdSelfCow,
    /// `PartialOrd<Outer> for Cow<Outer>` and similar ones.
    PartialOrdSelfCowRev,
    /// `PartialOrd<Cow<Outer>> for Inner` and similar ones.
    PartialOrdSelfCowAndInner,
    /// `PartialOrd<Inner> for Cow<Outer>` and similar ones.
    PartialOrdSelfCowAndInnerRev,
    /// `std::fmt::Pointer for Outer`.
    Pointer,
    /// `std::cmp::Ord for Outer`.
    Ord,
    /// `std::fmt::UpperExp for Outer`.
    UpperExp,
    /// `std::fmt::UpperHex for Outer`.
    UpperHex,
}

/// The flat catalog name of the derive target.
pub open spec fn spec_derive_name(d: Derive) -> Seq<char> {
    match d {
        Derive::AddSelf => "AddSelf"@,
        Derive::AddInner => "AddInner"@,
        Derive::AddInnerRev => "AddInnerRev"@,
        Derive::AddRefSelf => "AddRefSelf"@,
        Derive::AddRefInner => "AddRefInner"@,
        Derive::AddRefInnerRev => "AddRefInnerRev"@,
        Derive::AddAssignSelf => "AddAssignSelf"@,
        Derive::AddAssignInner => "AddAssignInner"@,
        Derive::AddAssignRefSelf => "AddAssignRefSelf"@,
        Derive::AddAssignRefInner => "AddAssignRefInner"@,
        Derive::DivSelf => "DivSelf"@,
        Derive::DivInner => "DivInner"@,
        Derive::DivInnerRev => "DivInnerRev"@,
        Derive::DivRefSelf => "DivRefSelf"@,
        Derive::DivRefInner => "DivRefInner"@,
        Derive::DivRefInnerRev => "DivRefInnerRev"@,
        Derive::DivAssignSelf => "DivAssignSelf"@,
        Derive::DivAssignInner => "DivAssignInner"@,
        Derive::DivAssignRefSelf => "DivAssignRefSelf"@,
        Derive::DivAssignRefInner => "DivAssignRefInner"@,
        Derive::MulSelf => "MulSelf"@,
        Derive::MulInner => "MulInner"@,
        Derive::MulInnerRev => "MulInnerRev"@,
        Derive::MulRefSelf => "MulRefSelf"@,
        Derive::MulRefInner => "MulRefInner"@,
        Derive::MulRefInnerRev => "MulRefInnerRev"@,
        Derive::MulAssignSelf => "MulAssignSelf"@,
        Derive::MulAssignInner => "MulAssignInner"@,
        Derive::MulAssignRefSelf => "MulAssignRefSelf"@,
        Derive::MulAssignRefInner => "MulAssignRefInner"@,
        Derive::RemSelf => "RemSelf"@,
        Derive::RemInner => "RemInner"@,
        Derive::RemInnerRev => "RemInnerRev"@,
        Derive::RemRefSelf => "RemRefSelf"@,
        Derive::RemRefInner => "RemRefInner"@,
        Derive::RemRefInnerRev => "RemRefInnerRev"@,
        Derive::RemAssignSelf => "RemAssignSelf"@,
        Derive::RemAssignInner => "RemAssignInner"@,
        Derive::RemAssignRefSelf => "RemAssignRefSelf"@,
        Derive::RemAssignRefInner => "RemAssignRefInner"@,
        Derive::SubSelf => "SubSelf"@,
        Derive::SubInner => "SubInner"@,
        Derive::SubInnerRev => "SubInnerRev"@,
        Derive::SubRefSelf => "SubRefSelf"@,
        Derive::SubRefInner => "SubRefInner"@,
        Derive::SubRefInnerRev => "SubRefInnerRev"@,
        Derive::SubAssignSelf => "SubAssignSelf"@,
        Derive::SubAssignInner => "SubAssignInner"@,
        Derive::SubAssignRefSelf => "SubAssignRefSelf"@,
        Derive::SubAssignRefInner => "SubAssignRefInner"@,
        Derive::AsciiExt => "AsciiExt"@,
        Derive::AsMutDeref => "AsMutDeref"@,
        Derive::AsMutInner => "AsMutInner"@,
        Derive::AsMutSelf => "AsMutSelf"@,
        Derive::AsRefDeref => "AsRefDeref"@,
        Derive::AsRefInner => "AsRefInner"@,
        Derive::AsRefSelf => "AsRefSelf"@,
        Derive::Binary => "Binary"@,
        Derive::DefaultRef => "DefaultRef"@,
        Derive::Deref => "Deref"@,
        Derive::DerefMut => "DerefMut"@,
        Derive::Display => "Display"@,
        Derive::FromInner => "FromInner"@,
        Derive::IntoArc => "IntoArc"@,
        Derive::IntoBox => "IntoBox"@,
        Derive::IntoInner => "IntoInner"@,
        Derive::IntoRc => "IntoRc"@,
        Derive::LowerExp => "LowerExp"@,
        Derive::LowerHex => "LowerHex"@,
        Derive::Octal => "Octal"@,
        Derive::PartialEqInner => "PartialEqInner"@,
        Derive::PartialEqInnerRev => "PartialEqInnerRev"@,
        Derive::PartialEqInnerCow => "PartialEqInnerCow"@,
        Derive::PartialEqInnerCowRev => "PartialEqInnerCowRev"@,
        Derive::PartialEqSelf => "PartialEqSelf"@,
        Derive::PartialEqSelfCow => "PartialEqSelfCow"@,
        Derive::PartialEqSelfCowRev => "PartialEqSelfCowRev"@,
        Derive::PartialEqSelfCowAndInner => "PartialEqSelfCowAndInner"@,
        Derive::PartialEqSelfCowAndInnerRev => "PartialEqSelfCowAndInnerRev"@,
        Derive::PartialOrdInner => "PartialOrdInner"@,
        Derive::PartialOrdInnerRev => "PartialOrdInnerRev"@,
        Derive::PartialOrdInnerCow => "PartialOrdInnerCow"@,
        Derive::PartialOrdInnerCowRev => "PartialOrdInnerCowRev"@,
        Derive::PartialOrdSelf => "PartialOrdSelf"@,
        Derive::PartialOrdSelfCow => "PartialOrdSelfCow"@,
        Derive::PartialOrdSelfCowRev => "PartialOrdSelfCowRev"@,
        Derive::PartialOrdSelfCowAndInner => "PartialOrdSelfCowAndInner"@,
        Derive::PartialOrdSelfCowAndInnerRev => "PartialOrdSelfCowAndInnerRev"@,
        Derive::Pointer => "Pointer"@,
        Derive::Ord => "Ord"@,
        Derive::UpperExp => "UpperExp"@,
        Derive::UpperHex => "UpperHex"@,
    }
}

impl Derive {
    /// Returns the flat catalog name of the derive target.
    pub fn as_str(&self) -> (r: &'static str)
        ensures
            r@ == spec_derive_name(*self),
    {
        match *self {
            Derive::AddSelf => "AddSelf",
            Derive::AddInner => "AddInner",
            Derive::AddInnerRev => "AddInnerRev",
            Derive::AddRefSelf => "AddRefSelf",
            Derive::AddRefInner => "AddRefInner",
            Derive::AddRefInnerRev => "AddRefInnerRev",
            Derive::AddAssignSelf => "AddAssignSelf",
            Derive::AddAssignInner => "AddAssignInner",
            Derive::AddAssignRefSelf => "AddAssignRefSelf",
            Derive::AddAssignRefInner => "AddAssignRefInner",
            Derive::DivSelf => "DivSelf",
            Derive::DivInner => "DivInner",
            Derive::DivInnerRev => "DivInnerRev",
            Derive::DivRefSelf => "DivRefSelf",
            Derive::DivRefInner => "DivRefInner",
            Derive::DivRefInnerRev => "DivRefInnerRev",
            Derive::DivAssignSelf => "DivAssignSelf",
            Derive::DivAssignInner => "DivAssignInner",
            Derive::DivAssignRefSelf => "DivAssignRefSelf",
            Derive::DivAssignRefInner => "DivAssignRefInner",
            Derive::MulSelf => "MulSelf",
            Derive::MulInner => "MulInner",
            Derive::MulInnerRev => "MulInnerRev",
            Derive::MulRefSelf => "MulRefSelf",
            Derive::MulRefInner => "MulRefInner",
            Derive::MulRefInnerRev => "MulRefInnerRev",
            Derive::MulAssignSelf => "MulAssignSelf",
            Derive::MulAssignInner => "MulAssignInner",
            Derive::MulAssignRefSelf => "MulAssignRefSelf",
            Derive::MulAssignRefInner => "MulAssignRefInner",
            Derive::RemSelf => "RemSelf",
            Derive::RemInner => "RemInner",
            Derive::RemInnerRev => "RemInnerRev",
            Derive::RemRefSelf => "RemRefSelf",
            Derive::RemRefInner => "RemRefInner",
            Derive::RemRefInnerRev => "RemRefInnerRev",
            Derive::RemAssignSelf => "RemAssignSelf",
            Derive::RemAssignInner => "RemAssignInner",
            Derive::RemAssignRefSelf => "RemAssignRefSelf",
            Derive::RemAssignRefInner => "RemAssignRefInner",
            Derive::SubSelf => "SubSelf",
            Derive::SubInner => "SubInner",
            Derive::SubInnerRev => "SubInnerRev",
            Derive::SubRefSelf => "SubRefSelf",
            Derive::SubRefInner => "SubRefInner",
            Derive::SubRefInnerRev => "SubRefInnerRev",
            Derive::SubAssignSelf => "SubAssignSelf",
            Derive::SubAssignInner => "SubAssignInner",
            Derive::SubAssignRefSelf => "SubAssignRefSelf",
            Derive::SubAssignRefInner => "SubAssignRefInner",
            Derive::AsciiExt => "AsciiExt",
            Derive::AsMutDeref => "AsMutDeref",
            Derive::AsMutInner => "AsMutInner",
            Derive::AsMutSelf => "AsMutSelf",
            Derive::AsRefDeref => "AsRefDeref",
            Derive::AsRefInner => "AsRefInner",
            Derive::AsRefSelf => "AsRefSelf",
            Derive::Binary => "Binary",
            Derive::DefaultRef => "DefaultRef",
            Derive::Deref => "Deref",
            Derive::DerefMut => "DerefMut",
            Derive::Display => "Display",
            Derive::FromInner => "FromInner",
            Derive::IntoArc => "IntoArc",
            Derive::IntoBox => "IntoBox",
            Derive::IntoInner => "IntoInner",
            Derive::IntoRc => "IntoRc",
            Derive::LowerExp => "LowerExp",
            Derive::LowerHex => "LowerHex",
            Derive::Octal => "Octal",
            Derive::PartialEqInner => "PartialEqInner",
            Derive::PartialEqInnerRev => "PartialEqInnerRev",
            Derive::PartialEqInnerCow => "PartialEqInnerCow",
            Derive::PartialEqInnerCowRev => "PartialEqInnerCowRev",
            Derive::PartialEqSelf => "PartialEqSelf",
            Derive::PartialEqSelfCow => "PartialEqSelfCow",
            Derive::PartialEqSelfCowRev => "PartialEqSelfCowRev",
            Derive::PartialEqSelfCowAndInner => "PartialEqSelfCowAndInner",
            Derive::PartialEqSelfCowAndInnerRev => "PartialEqSelfCowAndInnerRev",
            Derive::PartialOrdInner => "PartialOrdInner",
            Derive::PartialOrdInnerRev => "PartialOrdInnerRev",
            Derive::PartialOrdInnerCow => "PartialOrdInnerCow",
            Derive::PartialOrdInnerCowRev => "PartialOrdInnerCowRev",
            Derive::PartialOrdSelf => "PartialOrdSelf",
            Derive::PartialOrdSelfCow => "PartialOrdSelfCow",
            Derive::PartialOrdSelfCowRev => "PartialOrdSelfCowRev",
            Derive::PartialOrdSelfCowAndInner => "PartialOrdSelfCowAndInner",
            Derive::PartialOrdSelfCowAndInnerRev => "PartialOrdSelfCowAndInnerRev",
            Derive::Pointer => "Pointer",
            Derive::Ord => "Ord",
            Derive::UpperExp => "UpperExp",
            Derive::UpperHex => "UpperHex",
        }
    }
}

/// The derive target with the given flat catalog name, if any.
pub open spec fn spec_flat_target(name: Seq<char>) -> Option<Derive> {
    if name == "AddSelf"@ {
        Some(Derive::AddSelf)
    } else if name == "AddInner"@ {
        Some(Derive::AddInner)
    } else if name == "AddInnerRev"@ {
        Some(Derive::AddInnerRev)
    } else if name == "AddRefSelf"@ {
        Some(Derive::AddRefSelf)
    } else if name == "AddRefInner"@ {
        Some(Derive::AddRefInner)
    } else if name == "AddRefInnerRev"@ {
        Some(Derive::AddRefInnerRev)
    } else if name == "AddAssignSelf"@ {
        Some(Derive::AddAssignSelf)
    } else if name == "AddAssignInner"@ {
        Some(Derive::AddAssignInner)
    } else if name == "AddAssignRefSelf"@ {
        Some(Derive::AddAssignRefSelf)
    } else if name == "AddAssignRefInner"@ {
        Some(Derive::AddAssignRefInner)
    } else if name == "DivSelf"@ {
        Some(Derive::DivSelf)
    } else if name == "DivInner"@ {
        Some(Derive::DivInner)
    } else if name == "DivInnerRev"@ {
        Some(Derive::DivInnerRev)
    } else if name == "DivRefSelf"@ {
        Some(Derive::DivRefSelf)
    } else if name == "DivRefInner"@ {
        Some(Derive::DivRefInner)
    } else if name == "DivRefInnerRev"@ {
        Some(Derive::DivRefInnerRev)
    } else if name == "DivAssignSelf"@ {
        Some(Derive::DivAssignSelf)
    } else if name == "DivAssignInner"@ {
        Some(Derive::DivAssignInner)
    } else if name == "DivAssignRefSelf"@ {
        Some(Derive::DivAssignRefSelf)
    } else if name == "DivAssignRefInner"@ {
        Some(Derive::DivAssignRefInner)
    } else if name == "MulSelf"@ {
        Some(Derive::MulSelf)
    } else if name == "MulInner"@ {
        Some(Derive::MulInner)
    } else if name == "MulInnerRev"@ {
        Some(Derive::MulInnerRev)
    } else if name == "MulRefSelf"@ {
        Some(Derive::MulRefSelf)
    } else if name == "MulRefInner"@ {
        Some(Derive::MulRefInner)
    } else if name == "MulRefInnerRev"@ {
        Some(Derive::MulRefInnerRev)
    } else if name == "MulAssignSelf"@ {
        Some(Derive::MulAssignSelf)
    } else if name == "MulAssignInner"@ {
        Some(Derive::MulAssignInner)
    } else if name == "MulAssignRefSelf"@ {
        Some(Derive::MulAssignRefSelf)
    } else if name == "MulAssignRefInner"@ {
        Some(Derive::MulAssignRefInner)
    } else if name == "RemSelf"@ {
        Some(Derive::RemSelf)
    } else if name == "RemInner"@ {
        Some(Derive::RemInner)
    } else if name == "RemInnerRev"@ {
        Some(Derive::RemInnerRev)
    } else if name == "RemRefSelf"@ {
        Some(Derive::RemRefSelf)
    } else if name == "RemRefInner"@ {
        Some(Derive::RemRefInner)
    } else if name == "RemRefInnerRev"@ {
        Some(Derive::RemRefInnerRev)
    } else if name == "RemAssignSelf"@ {
        Some(Derive::RemAssignSelf)
    } else if name == "RemAssignInner"@ {
        Some(Derive::RemAssignInner)
    } else if name == "RemAssignRefSelf"@ {
        Some(Derive::RemAssignRefSelf)
    } else if name == "RemAssignRefInner"@ {
        Some(Derive::RemAssignRefInner)
    } else if name == "SubSelf"@ {
        Some(Derive::SubSelf)
    } else if name == "SubInner"@ {
        Some(Derive::SubInner)
    } else if name == "SubInnerRev"@ {
        Some(Derive::SubInnerRev)
    } else if name == "SubRefSelf"@ {
        Some(Derive::SubRefSelf)
    } else if name == "SubRefInner"@ {
        Some(Derive::SubRefInner)
    } else if name == "SubRefInnerRev"@ {
        Some(Derive::SubRefInnerRev)
    } else if name == "SubAssignSelf"@ {
        Some(Derive::SubAssignSelf)
    } else if name == "SubAssignInner"@ {
        Some(Derive::SubAssignInner)
    } else if name == "SubAssignRefSelf"@ {
        Some(Derive::SubAssignRefSelf)
    } else if name == "SubAssignRefInner"@ {
        Some(Derive::SubAssignRefInner)
    } else if name == "AsciiExt"@ {
        Some(Derive::AsciiExt)
    } else if name == "AsMutDeref"@ {
        Some(Derive::AsMutDeref)
    } else if name == "AsMutInner"@ {
        Some(Derive::AsMutInner)
    } else if name == "AsMutSelf"@ {
        Some(Derive::AsMutSelf)
    } else if name == "AsRefDeref"@ {
        Some(Derive::AsRefDeref)
    } else if name == "AsRefInner"@ {
        Some(Derive::AsRefInner)
    } else if name == "AsRefSelf"@ {
        Some(Derive::AsRefSelf)
    } else if name == "Binary"@ {
        Some(Derive::Binary)
    } else if name == "DefaultRef"@ {
        Some(Derive::DefaultRef)
    } else if name == "Deref"@ {
        Some(Derive::Deref)
    } else if name == "DerefMut"@ {
        Some(Derive::DerefMut)
    } else if name == "Display"@ {
        Some(Derive::Display)
    } else if name == "FromInner"@ {
        Some(Derive::FromInner)
    } else if name == "IntoArc"@ {
        Some(Derive::IntoArc)
    } else if name == "IntoBox"@ {
        Some(Derive::IntoBox)
    } else if name == "IntoInner"@ {
        Some(Derive::IntoInner)
    } else if name == "IntoRc"@ {
        Some(Derive::IntoRc)
    } else if name == "LowerExp"@ {
        Some(Derive::LowerExp)
    } else if name == "LowerHex"@ {
        Some(Derive::LowerHex)
    } else if name == "Octal"@ {
        Some(Derive::Octal)
    } else if name == "PartialEqInner"@ {
        Some(Derive::PartialEqInner)
    } else if name == "PartialEqInnerRev"@ {
        Some(Derive::PartialEqInnerRev)
    } else if name == "PartialEqInnerCow"@ {
        Some(Derive::PartialEqInnerCow)
    } else if name == "PartialEqInnerCowRev"@ {
        Some(Derive::PartialEqInnerCowRev)
    } else if name == "PartialEqSelf"@ {
        Some(Derive::PartialEqSelf)
    } else if name == "PartialEqSelfCow"@ {
        Some(Derive::PartialEqSelfCow)
    } else if name == "PartialEqSelfCowRev"@ {
        Some(Derive::PartialEqSelfCowRev)
    } else if name == "PartialEqSelfCowAndInner"@ {
        Some(Derive::PartialEqSelfCowAndInner)
    } else if name == "PartialEqSelfCowAndInnerRev"@ {
        Some(Derive::PartialEqSelfCowAndInnerRev)
    } else if name == "PartialOrdInner"@ {
        Some(Derive::PartialOrdInner)
    } else if name == "PartialOrdInnerRev"@ {
        Some(Derive::PartialOrdInnerRev)
    } else if name == "PartialOrdInnerCow"@ {
        Some(Derive::PartialOrdInnerCow)
    } else if name == "PartialOrdInnerCowRev"@ {
        Some(Derive::PartialOrdInnerCowRev)
    } else if name == "PartialOrdSelf"@ {
        Some(Derive::PartialOrdSelf)
    } else if name == "PartialOrdSelfCow"@ {
        Some(Derive::PartialOrdSelfCow)
    } else if name == "PartialOrdSelfCowRev"@ {
        Some(Derive::PartialOrdSelfCowRev)
    } else if name == "PartialOrdSelfCowAndInner"@ {
        Some(Derive::PartialOrdSelfCowAndInner)
    } else if name == "PartialOrdSelfCowAndInnerRev"@ {
        Some(Derive::PartialOrdSelfCowAndInnerRev)
    } else if name == "Pointer"@ {
        Some(Derive::Pointer)
    } else if name == "Ord"@ {
        Some(Derive::Ord)
    } else if name == "UpperExp"@ {
        Some(Derive::UpperExp)
    } else if name == "UpperHex"@ {
        Some(Derive::UpperHex)
    } else {
        None
    }
}

/// Looks a flat capability name up in the catalog.
pub fn flat_target(name: &str) -> (r: Option<Derive>)
    ensures
        r == spec_flat_target(name@),
{
    if str_eq(name, "AddSelf") {
        Some(Derive::AddSelf)
    } else if str_eq(name, "AddInner") {
        Some(Derive::AddInner)
    } else if str_eq(name, "AddInnerRev") {
        Some(Derive::AddInnerRev)
    } else if str_eq(name, "AddRefSelf") {
        Some(Derive::AddRefSelf)
    } else if str_eq(name, "AddRefInner") {
        Some(Derive::AddRefInner)
    } else if str_eq(name, "AddRefInnerRev") {
        Some(Derive::AddRefInnerRev)
    } else if str_eq(name, "AddAssignSelf") {
        Some(Derive::AddAssignSelf)
    } else if str_eq(name, "AddAssignInner") {
        Some(Derive::AddAssignInner)
    } else if str_eq(name, "AddAssignRefSelf") {
        Some(Derive::AddAssignRefSelf)
    } else if str_eq(name, "AddAssignRefInner") {
        Some(Derive::AddAssignRefInner)
    } else if str_eq(name, "DivSelf") {
        Some(Derive::DivSelf)
    } else if str_eq(name, "DivInner") {
        Some(Derive::DivInner)
    } else if str_eq(name, "DivInnerRev") {
        Some(Derive::DivInnerRev)
    } else if str_eq(name, "DivRefSelf") {
        Some(Derive::DivRefSelf)
    } else if str_eq(name, "DivRefInner") {
        Some(Derive::DivRefInner)
    } else if str_eq(name, "DivRefInnerRev") {
        Some(Derive::DivRefInnerRev)
    } else if str_eq(name, "DivAssignSelf") {
        Some(Derive::DivAssignSelf)
    } else if str_eq(name, "DivAssignInner") {
        Some(Derive::DivAssignInner)
    } else if str_eq(name, "DivAssignRefSelf") {
        Some(Derive::DivAssignRefSelf)
    } else if str_eq(name, "DivAssignRefInner") {
        Some(Derive::DivAssignRefInner)
    } else if str_eq(name, "MulSelf") {
        Some(Derive::MulSelf)
    } else if str_eq(name, "MulInner") {
        Some(Derive::MulInner)
    } else if str_eq(name, "MulInnerRev") {
        Some(Derive::MulInnerRev)
    } else if str_eq(name, "MulRefSelf") {
        Some(Derive::MulRefSelf)
    } else if str_eq(name, "MulRefInner") {
        Some(Derive::MulRefInner)
    } else if str_eq(name, "MulRefInnerRev") {
        Some(Derive::MulRefInnerRev)
    } else if str_eq(name, "MulAssignSelf") {
        Some(Derive::MulAssignSelf)
    } else if str_eq(name, "MulAssignInner") {
        Some(Derive::MulAssignInner)
    } else if str_eq(name, "MulAssignRefSelf") {
        Some(Derive::MulAssignRefSelf)
    } else if str_eq(name, "MulAssignRefInner") {
        Some(Derive::MulAssignRefInner)
    } else if str_eq(name, "RemSelf") {
        Some(Derive::RemSelf)
    } else if str_eq(name, "RemInner") {
        Some(Derive::RemInner)
    } else if str_eq(name, "RemInnerRev") {
        Some(Derive::RemInnerRev)
    } else if str_eq(name, "RemRefSelf") {
        Some(Derive::RemRefSelf)
    } else if str_eq(name, "RemRefInner") {
        Some(Derive::RemRefInner)
    } else if str_eq(name, "RemRefInnerRev") {
        Some(Derive::RemRefInnerRev)
    } else if str_eq(name, "RemAssignSelf") {
        Some(Derive::RemAssignSelf)
    } else if str_eq(name, "RemAssignInner") {
        Some(Derive::RemAssignInner)
    } else if str_eq(name, "RemAssignRefSelf") {
        Some(Derive::RemAssignRefSelf)
    } else if str_eq(name, "RemAssignRefInner") {
        Some(Derive::RemAssignRefInner)
    } else if str_eq(name, "SubSelf") {
        Some(Derive::SubSelf)
    } else if str_eq(name, "SubInner") {
        Some(Derive::SubInner)
    } else if str_eq(name, "SubInnerRev") {
        Some(Derive::SubInnerRev)
    } else if str_eq(name, "SubRefSelf") {
        Some(Derive::SubRefSelf)
    } else if str_eq(name, "SubRefInner") {
        Some(Derive::SubRefInner)
    } else if str_eq(name, "SubRefInnerRev") {
        Some(Derive::SubRefInnerRev)
    } else if str_eq(name, "SubAssignSelf") {
        Some(Derive::SubAssignSelf)
    } else if str_eq(name, "SubAssignInner") {
        Some(Derive::SubAssignInner)
    } else if str_eq(name, "SubAssignRefSelf") {
        Some(Derive::SubAssignRefSelf)
    } else if str_eq(name, "SubAssignRefInner") {
        Some(Derive::SubAssignRefInner)
    } else if str_eq(name, "AsciiExt") {
        Some(Derive::AsciiExt)
    } else if str_eq(name, "AsMutDeref") {
        Some(Derive::AsMutDeref)
    } else if str_eq(name, "AsMutInner") {
        Some(Derive::AsMutInner)
    } else if str_eq(name, "AsMutSelf") {
        Some(Derive::AsMutSelf)
    } else if str_eq(name, "AsRefDeref") {
        Some(Derive::AsRefDeref)
    } else if str_eq(name, "AsRefInner") {
        Some(Derive::AsRefInner)
    } else if str_eq(name, "AsRefSelf") {
        Some(Derive::AsRefSelf)
    } else if str_eq(name, "Binary") {
        Some(Derive::Binary)
    } else if str_eq(name, "DefaultRef") {
        Some(Derive::DefaultRef)
    } else if str_eq(name, "Deref") {
        Some(Derive::Deref)
    } else if str_eq(name, "DerefMut") {
        Some(Derive::DerefMut)
    } else if str_eq(name, "Display") {
        Some(Derive::Display)
    } else if str_eq(name, "FromInner") {
        Some(Derive::FromInner)
    } else if str_eq(name, "IntoArc") {
        Some(Derive::IntoArc)
    } else if str_eq(name, "IntoBox") {
        Some(Derive::IntoBox)
    } else if str_eq(name, "IntoInner") {
        Some(Derive::IntoInner)
    } else if str_eq(name, "IntoRc") {
        Some(Derive::IntoRc)
    } else if str_eq(name, "LowerExp") {
        Some(Derive::LowerExp)
    } else if str_eq(name, "LowerHex") {
        Some(Derive::LowerHex)
    } else if str_eq(name, "Octal") {
        Some(Derive::Octal)
    } else if str_eq(name, "PartialEqInner") {
        Some(Derive::PartialEqInner)
    } else if str_eq(name, "PartialEqInnerRev") {
        Some(Derive::PartialEqInnerRev)
    } else if str_eq(name, "PartialEqInnerCow") {
        Some(Derive::PartialEqInnerCow)
    } else if str_eq(name, "PartialEqInnerCowRev") {
        Some(Derive::PartialEqInnerCowRev)
    } else if str_eq(name, "PartialEqSelf") {
        Some(Derive::PartialEqSelf)
    } else if str_eq(name, "PartialEqSelfCow") {
        Some(Derive::PartialEqSelfCow)
    } else if str_eq(name, "PartialEqSelfCowRev") {
        Some(Derive::PartialEqSelfCowRev)
    } else if str_eq(name, "PartialEqSelfCowAndInner") {
        Some(Derive::PartialEqSelfCowAndInner)
    } else if str_eq(name, "PartialEqSelfCowAndInnerRev") {
        Some(Derive::PartialEqSelfCowAndInnerRev)
    } else if str_eq(name, "PartialOrdInner") {
        Some(Derive::PartialOrdInner)
    } else if str_eq(name, "PartialOrdInnerRev") {
        Some(Derive::PartialOrdInnerRev)
    } else if str_eq(name, "PartialOrdInnerCow") {
        Some(Derive::PartialOrdInnerCow)
    } else if str_eq(name, "PartialOrdInnerCowRev") {
        Some(Derive::PartialOrdInnerCowRev)
    } else if str_eq(name, "PartialOrdSelf") {
        Some(Derive::PartialOrdSelf)
    } else if str_eq(name, "PartialOrdSelfCow") {
        Some(Derive::PartialOrdSelfCow)
    } else if str_eq(name, "PartialOrdSelfCowRev") {
        Some(Derive::PartialOrdSelfCowRev)
    } else if str_eq(name, "PartialOrdSelfCowAndInner") {
        Some(Derive::PartialOrdSelfCowAndInner)
    } else if str_eq(name, "PartialOrdSelfCowAndInnerRev") {
        Some(Derive::PartialOrdSelfCowAndInnerRev)
    } else if str_eq(name, "Pointer") {
        Some(Derive::Pointer)
    } else if str_eq(name, "Ord") {
        Some(Derive::Ord)
    } else if str_eq(name, "UpperExp") {
        Some(Derive::UpperExp)
    } else if str_eq(name, "UpperHex") {
        Some(Derive::UpperHex)
    } else {
        None
    }
}

/// Whether the name opens a recognized grouped shorthand.
pub open spec fn spec_is_group_parent(parent: Seq<char>) -> bool {
    parent == "AsMut"@ || parent == "AsRef"@ || parent == "Into"@ || parent == "PartialEq"@ || parent == "PartialOrd"@ || parent == "Add"@ || parent == "AddRef"@ || parent == "AddAssign"@ || parent == "AddAssignRef"@ || parent == "Div"@ || parent == "DivRef"@ || parent == "DivAssign"@ || parent == "DivAssignRef"@ || parent == "Mul"@ || parent == "MulRef"@ || parent == "MulAssign"@ || parent == "MulAssignRef"@ || parent == "Rem"@ || parent == "RemRef"@ || parent == "RemAssign"@ || parent == "RemAssignRef"@ || parent == "Sub"@ || parent == "SubRef"@ || parent == "SubAssign"@ || parent == "SubAssignRef"@
}

/// Checks whether the name opens a recognized grouped shorthand.
pub fn is_group_parent(parent: &str) -> (r: bool)
    ensures
        r == spec_is_group_parent(parent@),
{
    str_eq(parent, "AsMut") || str_eq(parent, "AsRef") || str_eq(parent, "Into") || str_eq(parent, "PartialEq") || str_eq(parent, "PartialOrd") || str_eq(parent, "Add") || str_eq(parent, "AddRef") || str_eq(parent, "AddAssign") || str_eq(parent, "AddAssignRef") || str_eq(parent, "Div") || str_eq(parent, "DivRef") || str_eq(parent, "DivAssign") || str_eq(parent, "DivAssignRef") || str_eq(parent, "Mul") || str_eq(parent, "MulRef") || str_eq(parent, "MulAssign") || str_eq(parent, "MulAssignRef") || str_eq(parent, "Rem") || str_eq(parent, "RemRef") || str_eq(parent, "RemAssign") || str_eq(parent, "RemAssignRef") || str_eq(parent, "Sub") || str_eq(parent, "SubRef") || str_eq(parent, "SubAssign") || str_eq(parent, "SubAssignRef")
}

/// The derive target requested by a `parent(child)` grouped shorthand.
pub open spec fn spec_group_target(parent: Seq<char>, child: Seq<char>) -> Option<Derive> {
    if parent == "AsMut"@ {
        if child == "Deref"@ {
            Some(Derive::AsMutDeref)
        } else if child == "Inner"@ {
            Some(Derive::AsMutInner)
        } else if child == "Self_"@ {
            Some(Derive::AsMutSelf)
        } else {
            None
        }
    } else if parent == "AsRef"@ {
        if child == "Deref"@ {
            Some(Derive::AsRefDeref)
        } else if child == "Inner"@ {
            Some(Derive::AsRefInner)
        } else if child == "Self_"@ {
            Some(Derive::AsRefSelf)
        } else {
            None
        }
    } else if parent == "Into"@ {
        if child == "Arc"@ {
            Some(Derive::IntoArc)
        } else if child == "Box"@ {
            Some(Derive::IntoBox)
        } else if child == "Inner"@ {
            Some(Derive::IntoInner)
        } else if child == "Rc"@ {
            Some(Derive::IntoRc)
        } else {
            None
        }
    } else if parent == "PartialEq"@ {
        if child == "Inner"@ {
            Some(Derive::PartialEqInner)
        } else if child == "InnerRev"@ {
            Some(Derive::PartialEqInnerRev)
        } else if child == "InnerCow"@ {
            Some(Derive::PartialEqInnerCow)
        } else if child == "InnerCowRev"@ {
            Some(Derive::PartialEqInnerCowRev)
        } else if child == "Self_"@ {
            Some(Derive::PartialEqSelf)
        } else if child == "SelfCow"@ {
            Some(Derive::PartialEqSelfCow)
        } else if child == "SelfCowRev"@ {
            Some(Derive::PartialEqSelfCowRev)
        } else if child == "SelfCowAndInner"@ {
            Some(Derive::PartialEqSelfCowAndInner)
        } else if child == "SelfCowAndInnerRev"@ {
            Some(Derive::PartialEqSelfCowAndInnerRev)
        } else {
            None
        }
    } else if parent == "PartialOrd"@ {
        if child == "Inner"@ {
            Some(Derive::PartialOrdInner)
        } else if child == "InnerRev"@ {
            Some(Derive::PartialOrdInnerRev)
        } else if child == "InnerCow"@ {
            Some(Derive::PartialOrdInnerCow)
        } else if child == "InnerCowRev"@ {
            Some(Derive::PartialOrdInnerCowRev)
        } else if child == "Self_"@ {
            Some(Derive::PartialOrdSelf)
        } else if child == "SelfCow"@ {
            Some(Derive::PartialOrdSelfCow)
        } else if child == "SelfCowRev"@ {
            Some(Derive::PartialOrdSelfCowRev)
        } else if child == "SelfCowAndInner"@ {
            Some(Derive::PartialOrdSelfCowAndInner)
        } else if child == "SelfCowAndInnerRev"@ {
            Some(Derive::PartialOrdSelfCowAndInnerRev)
        } else {
            None
        }
    } else if parent == "Add"@ {
        if child == "Self_"@ {
            Some(Derive::AddSelf)
        } else if child == "Inner"@ {
            Some(Derive::AddInner)
        } else if child == "InnerRev"@ {
            Some(Derive::AddInnerRev)
        } else {
            None
        }
    } else if parent == "AddRef"@ {
        if child == "Self_"@ {
            Some(Derive::AddRefSelf)
        } else if child == "Inner"@ {
            Some(Derive::AddRefInner)
        } else if child == "InnerRev"@ {
            Some(Derive::AddRefInnerRev)
        } else {
            None
        }
    } else if parent == "AddAssign"@ {
        if child == "Self_"@ {
            Some(Derive::AddAssignSelf)
        } else if child == "Inner"@ {
            Some(Derive::AddAssignInner)
        } else {
            None
        }
    } else if parent == "AddAssignRef"@ {
        if child == "Self_"@ {
            Some(Derive::AddAssignRefSelf)
        } else if child == "Inner"@ {
            Some(Derive::AddAssignRefInner)
        } else {
            None
        }
    } else if parent == "Div"@ {
        if child == "Self_"@ {
            Some(Derive::DivSelf)
        } else if child == "Inner"@ {
            Some(Derive::DivInner)
        } else if child == "InnerRev"@ {
            Some(Derive::DivInnerRev)
        } else {
            None
        }
    } else if parent == "DivRef"@ {
        if child == "Self_"@ {
            Some(Derive::DivRefSelf)
        } else if child == "Inner"@ {
            Some(Derive::DivRefInner)
        } else if child == "InnerRev"@ {
            Some(Derive::DivRefInnerRev)
        } else {
            None
        }
    } else if parent == "DivAssign"@ {
        if child == "Self_"@ {
            Some(Derive::DivAssignSelf)
        } else if child == "Inner"@ {
            Some(Derive::DivAssignInner)
        } else {
            None
        }
    } else if parent == "DivAssignRef"@ {
        if child == "Self_"@ {
            Some(Derive::DivAssignRefSelf)
        } else if child == "Inner"@ {
            Some(Derive::DivAssignRefInner)
        } else {
            None
        }
    } else if parent == "Mul"@ {
        if child == "Self_"@ {
            Some(Derive::MulSelf)
        } else if child == "Inner"@ {
            Some(Derive::MulInner)
        } else if child == "InnerRev"@ {
            Some(Derive::MulInnerRev)
        } else {
            None
        }
    } else if parent == "MulRef"@ {
        if child == "Self_"@ {
            Some(Derive::MulRefSelf)
        } else if child == "Inner"@ {
            Some(Derive::MulRefInner)
        } else if child == "InnerRev"@ {
            Some(Derive::MulRefInnerRev)
        } else {
            None
        }
    } else if parent == "MulAssign"@ {
        if child == "Self_"@ {
            Some(Derive::MulAssignSelf)
        } else if child == "Inner"@ {
            Some(Derive::MulAssignInner)
        } else {
            None
        }
    } else if parent == "MulAssignRef"@ {
        if child == "Self_"@ {
            Some(Derive::MulAssignRefSelf)
        } else if child == "Inner"@ {
            Some(Derive::MulAssignRefInner)
        } else {
            None
        }
    } else if parent == "Rem"@ {
        if child == "Self_"@ {
            Some(Derive::RemSelf)
        } else if child == "Inner"@ {
            Some(Derive::RemInner)
        } else if child == "InnerRev"@ {
            Some(Derive::RemInnerRev)
        } else {
            None
        }
    } else if parent == "RemRef"@ {
        if child == "Self_"@ {
            Some(Derive::RemRefSelf)
        } else if child == "Inner"@ {
            Some(Derive::RemRefInner)
        } else if child == "InnerRev"@ {
            Some(Derive::RemRefInnerRev)
        } else {
            None
        }
    } else if parent == "RemAssign"@ {
        if child == "Self_"@ {
            Some(Derive::RemAssignSelf)
        } else if child == "Inner"@ {
            Some(Derive::RemAssignInner)
        } else {
            None
        }
    } else if parent == "RemAssignRef"@ {
        if child == "Self_"@ {
            Some(Derive::RemAssignRefSelf)
        } else if child == "Inner"@ {
            Some(Derive::RemAssignRefInner)
        } else {
            None
        }
    } else if parent == "Sub"@ {
        if child == "Self_"@ {
            Some(Derive::SubSelf)
        } else if child == "Inner"@ {
            Some(Derive::SubInner)
        } else if child == "InnerRev"@ {
            Some(Derive::SubInnerRev)
        } else {
            None
        }
    } else if parent == "SubRef"@ {
        if child == "Self_"@ {
            Some(Derive::SubRefSelf)
        } else if child == "Inner"@ {
            Some(Derive::SubRefInner)
        } else if child == "InnerRev"@ {
            Some(Derive::SubRefInnerRev)
        } else {
            None
        }
    } else if parent == "SubAssign"@ {
        if child == "Self_"@ {
            Some(Derive::SubAssignSelf)
        } else if child == "Inner"@ {
            Some(Derive::SubAssignInner)
        } else {
            None
        }
    } else if parent == "SubAssignRef"@ {
        if child == "Self_"@ {
            Some(Derive::SubAssignRefSelf)
        } else if child == "Inner"@ {
            Some(Derive::SubAssignRefInner)
        } else {
            None
        }
    } else {
        None
    }
}

/// Looks a grouped shorthand pair up in the catalog.
pub fn group_target(parent: &str, child: &str) -> (r: Option<Derive>)
    ensures
        r == spec_group_target(parent@, child@),
{
    if str_eq(parent, "AsMut") {
        if str_eq(child, "Deref") {
            Some(Derive::AsMutDeref)
        } else if str_eq(child, "Inner") {
            Some(Derive::AsMutInner)
        } else if str_eq(child, "Self_") {
            Some(Derive::AsMutSelf)
        } else {
            None
        }
    } else if str_eq(parent, "AsRef") {
        if str_eq(child, "Deref") {
            Some(Derive::AsRefDeref)
        } else if str_eq(child, "Inner") {
            Some(Derive::AsRefInner)
        } else if str_eq(child, "Self_") {
            Some(Derive::AsRefSelf)
        } else {
            None
        }
    } else if str_eq(parent, "Into") {
        if str_eq(child, "Arc") {
            Some(Derive::IntoArc)
        } else if str_eq(child, "Box") {
            Some(Derive::IntoBox)
        } else if str_eq(child, "Inner") {
            Some(Derive::IntoInner)
        } else if str_eq(child, "Rc") {
            Some(Derive::IntoRc)
        } else {
            None
        }
    } else if str_eq(parent, "PartialEq") {
        if str_eq(child, "Inner") {
            Some(Derive::PartialEqInner)
        } else if str_eq(child, "InnerRev") {
            Some(Derive::PartialEqInnerRev)
        } else if str_eq(child, "InnerCow") {
            Some(Derive::PartialEqInnerCow)
        } else if str_eq(child, "InnerCowRev") {
            Some(Derive::PartialEqInnerCowRev)
        } else if str_eq(child, "Self_") {
            Some(Derive::PartialEqSelf)
        } else if str_eq(child, "SelfCow") {
            Some(Derive::PartialEqSelfCow)
        } else if str_eq(child, "SelfCowRev") {
            Some(Derive::PartialEqSelfCowRev)
        } else if str_eq(child, "SelfCowAndInner") {
            Some(Derive::PartialEqSelfCowAndInner)
        } else if str_eq(child, "SelfCowAndInnerRev") {
            Some(Derive::PartialEqSelfCowAndInnerRev)
        } else {
            None
        }
    } else if str_eq(parent, "PartialOrd") {
        if str_eq(child, "Inner") {
            Some(Derive::PartialOrdInner)
        } else if str_eq(child, "InnerRev") {
            Some(Derive::PartialOrdInnerRev)
        } else if str_eq(child, "InnerCow") {
            Some(Derive::PartialOrdInnerCow)
        } else if str_eq(child, "InnerCowRev") {
            Some(Derive::PartialOrdInnerCowRev)
        } else if str_eq(child, "Self_") {
            Some(Derive::PartialOrdSelf)
        } else if str_eq(child, "SelfCow") {
            Some(Derive::PartialOrdSelfCow)
        } else if str_eq(child, "SelfCowRev") {
            Some(Derive::PartialOrdSelfCowRev)
        } else if str_eq(child, "SelfCowAndInner") {
            Some(Derive::PartialOrdSelfCowAndInner)
        } else if str_eq(child, "SelfCowAndInnerRev") {
            Some(Derive::PartialOrdSelfCowAndInnerRev)
        } else {
            None
        }
    } else if str_eq(parent, "Add") {
        if str_eq(child, "Self_") {
            Some(Derive::AddSelf)
        } else if str_eq(child, "Inner") {
            Some(Derive::AddInner)
        } else if str_eq(child, "InnerRev") {
            Some(Derive::AddInnerRev)
        } else {
            None
        }
    } else if str_eq(parent, "AddRef") {
        if str_eq(child, "Self_") {
            Some(Derive::AddRefSelf)
        } else if str_eq(child, "Inner") {
            Some(Derive::AddRefInner)
        } else if str_eq(child, "InnerRev") {
            Some(Derive::AddRefInnerRev)
        } else {
            None
        }
    } else if str_eq(parent, "AddAssign") {
        if str_eq(child, "Self_") {
            Some(Derive::AddAssignSelf)
        } else if str_eq(child, "Inner") {
            Some(Derive::AddAssignInner)
        } else {
            None
        }
    } else if str_eq(parent, "AddAssignRef") {
        if str_eq(child, "Self_") {
            Some(Derive::AddAssignRefSelf)
        } else if str_eq(child, "Inner") {
            Some(Derive::AddAssignRefInner)
        } else {
            None
        }
    } else if str_eq(parent, "Div") {
        if str_eq(child, "Self_") {
            Some(Derive::DivSelf)
        } else if str_eq(child, "Inner") {
            Some(Derive::DivInner)
        } else if str_eq(child, "InnerRev") {
            Some(Derive::DivInnerRev)
        } else {
            None
        }
    } else if str_eq(parent, "DivRef") {
        if str_eq(child, "Self_") {
            Some(Derive::DivRefSelf)
        } else if str_eq(child, "Inner") {
            Some(Derive::DivRefInner)
        } else if str_eq(child, "InnerRev") {
            Some(Derive::DivRefInnerRev)
        } else {
            None
        }
    } else if str_eq(parent, "DivAssign") {
        if str_eq(child, "Self_") {
            Some(Derive::DivAssignSelf)
        } else if str_eq(child, "Inner") {
            Some(Derive::DivAssignInner)
        } else {
            None
        }
    } else if str_eq(parent, "DivAssignRef") {
        if str_eq(child, "Self_") {
            Some(Derive::DivAssignRefSelf)
        } else if str_eq(child, "Inner") {
            Some(Derive::DivAssignRefInner)
        } else {
            None
        }
    } else if str_eq(parent, "Mul") {
        if str_eq(child, "Self_") {
            Some(Derive::MulSelf)
        } else if str_eq(child, "Inner") {
            Some(Derive::MulInner)
        } else if str_eq(child, "InnerRev") {
            Some(Derive::MulInnerRev)
        } else {
            None
        }
    } else if str_eq(parent, "MulRef") {
        if str_eq(child, "Self_") {
            Some(Derive::MulRefSelf)
        } else if str_eq(child, "Inner") {
            Some(Derive::MulRefInner)
        } else if str_eq(child, "InnerRev") {
            Some(Derive::MulRefInnerRev)
        } else {
            None
        }
    } else if str_eq(parent, "MulAssign") {
        if str_eq(child, "Self_") {
            Some(Derive::MulAssignSelf)
        } else if str_eq(child, "Inner") {
            Some(Derive::MulAssignInner)
        } else {
            None
        }
    } else if str_eq(parent, "MulAssignRef") {
        if str_eq(child, "Self_") {
            Some(Derive::MulAssignRefSelf)
        } else if str_eq(child, "Inner") {
            Some(Derive::MulAssignRefInner)
        } else {
            None
        }
    } else if str_eq(parent, "Rem") {
        if str_eq(child, "Self_") {
            Some(Derive::RemSelf)
        } else if str_eq(child, "Inner") {
            Some(Derive::RemInner)
        } else if str_eq(child, "InnerRev") {
            Some(Derive::RemInnerRev)
        } else {
            None
        }
    } else if str_eq(parent, "RemRef") {
        if str_eq(child, "Self_") {
            Some(Derive::RemRefSelf)
        } else if str_eq(child, "Inner") {
            Some(Derive::RemRefInner)
        } else if str_eq(child, "InnerRev") {
            Some(Derive::RemRefInnerRev)
        } else {
            None
        }
    } else if str_eq(parent, "RemAssign") {
        if str_eq(child, "Self_") {
            Some(Derive::RemAssignSelf)
        } else if str_eq(child, "Inner") {
            Some(Derive::RemAssignInner)
        } else {
            None
        }
    } else if str_eq(parent, "RemAssignRef") {
        if str_eq(child, "Self_") {
            Some(Derive::RemAssignRefSelf)
        } else if str_eq(child, "Inner") {
            Some(Derive::RemAssignRefInner)
        } else {
            None
        }
    } else if str_eq(parent, "Sub") {
        if str_eq(child, "Self_") {
            Some(Derive::SubSelf)
        } else if str_eq(child, "Inner") {
            Some(Derive::SubInner)
        } else if str_eq(child, "InnerRev") {
            Some(Derive::SubInnerRev)
        } else {
            None
        }
    } else if str_eq(parent, "SubRef") {
        if str_eq(child, "Self_") {
            Some(Derive::SubRefSelf)
        } else if str_eq(child, "Inner") {
            Some(Derive::SubRefInner)
        } else if str_eq(child, "InnerRev") {
            Some(Derive::SubRefInnerRev)
        } else {
            None
        }
    } else if str_eq(parent, "SubAssign") {
        if str_eq(child, "Self_") {
            Some(Derive::SubAssignSelf)
        } else if str_eq(child, "Inner") {
            Some(Derive::SubAssignInner)
        } else {
            None
        }
    } else if str_eq(parent, "SubAssignRef") {
        if str_eq(child, "Self_") {
            Some(Derive::SubAssignRefSelf)
        } else if str_eq(child, "Inner") {
            Some(Derive::SubAssignRefInner)
        } else {
            None
        }
    } else {
        None
    }
}

/// The first failure among the children of a `parent(child1, child2, ...)`
/// request: the parent itself when it is no recognized group, otherwise the
/// first child with no entry under the parent. The text is the display form
/// of the offending request.
pub open spec fn spec_children_err(parent: Seq<char>, children: Seq<Seq<char>>) -> Option<
    Seq<char>,
>
    decreases children.len(),
{
    if !spec_is_group_parent(parent) {
        Some(parent + "(..)"@)
    } else if children.len() == 0 {
        None
    } else if spec_group_target(parent, children[0]) is None {
        Some(parent + "("@ + children[0] + ")"@)
    } else {
        spec_children_err(parent, children.drop_first())
    }
}

/// The catalog entries requested by the children of a grouped shorthand, in
/// request order; children with no entry contribute nothing.
pub open spec fn spec_children_targets(parent: Seq<char>, children: Seq<Seq<char>>) -> Seq<Derive>
    decreases children.len(),
{
    if children.len() == 0 {
        Seq::empty()
    } else {
        match spec_group_target(parent, children[0]) {
            Some(d) => seq![d] + spec_children_targets(parent, children.drop_first()),
            None => spec_children_targets(parent, children.drop_first()),
        }
    }
}

impl Derive {
    /// Appends the derive targets specified by `parent(child1, child2, ...)`
    /// style to `derives`; on failure reports the offending request and
    /// leaves `derives` unchanged.
    pub fn append_from_nested_names(parent: &str, children: &[&str], derives: &mut Vec<Derive>) -> (r:
        Result<(), CatalogError>)
        ensures
            match spec_children_err(parent@, path_views(children@)) {
                Option::None => r is Ok && final(derives)@ == old(derives)@
                    + spec_children_targets(parent@, path_views(children@)),
                Option::Some(text) => (r matches Err(CatalogError::UnknownCapability(t)) && t@
                    == text) && final(derives)@ == old(derives)@,
            },
    {
        let ghost cviews = path_views(children@);
        if !is_group_parent(parent) {
            let mut text = String::from_str(parent);
            text.append("(..)");
            return Err(CatalogError::UnknownCapability(text));
        }
        let n = children.len();
        proof {
            assert(cviews.skip(0) =~= cviews);
        }
        let mut i: usize = 0;
        while i < n
            invariant
                spec_is_group_parent(parent@),
                i <= n,
                n == children@.len(),
                cviews == path_views(children@),
                spec_children_err(parent@, cviews.skip(i as int)) == spec_children_err(
                    parent@,
                    cviews,
                ),
                forall|j: int|
                    0 <= j < i ==> spec_group_target(parent@, #[trigger] cviews[j]) is Some,
            decreases n - i,
        {
            proof {
                assert(cviews.skip(i as int)[0] == cviews[i as int]);
            }
            if group_target(parent, children[i]).is_none() {
                let mut text = String::from_str(parent);
                text.append("(");
                text.append(children[i]);
                text.append(")");
                return Err(CatalogError::UnknownCapability(text));
            }
            proof {
                assert(cviews.skip(i as int).drop_first() =~= cviews.skip(i + 1));
            }
            i = i + 1;
        }
        proof {
            assert(cviews.skip(n as int) =~= Seq::<Seq<char>>::empty());
            assert(cviews.skip(0) =~= cviews);
        }
        let mut i: usize = 0;
        while i < n
            invariant
                spec_is_group_parent(parent@),
                i <= n,
                n == children@.len(),
                cviews == path_views(children@),
                forall|j: int|
                    0 <= j < n ==> spec_group_target(parent@, #[trigger] cviews[j]) is Some,
                derives@ + spec_children_targets(parent@, cviews.skip(i as int)) == old(derives)@
                    + spec_children_targets(parent@, cviews),
            decreases n - i,
        {
            proof {
                assert(cviews.skip(i as int)[0] == cviews[i as int]);
            }
            match group_target(parent, children[i]) {
                Option::Some(d) => {
                    derives.push(d);
                },
                Option::None => {
                    proof {
                        assert(false);
                    }
                },
            }
            proof {
                assert(cviews.skip(i as int).drop_first() =~= cviews.skip(i + 1));
                let prev = old(derives)@ + spec_children_targets(parent@, cviews);
                assert(derives@ + spec_children_targets(parent@, cviews.skip(i + 1)) =~= prev);
            }
            i = i + 1;
        }
        proof {
            assert(cviews.skip(n as int) =~= Seq::<Seq<char>>::empty());
            assert(spec_children_targets(parent@, Seq::empty()) =~= Seq::<Derive>::empty());
            assert(derives@ =~= old(derives)@ + spec_children_targets(parent@, cviews));
        }
        Ok(())
    }
}

/// The meta items with literals dropped.
pub open spec fn spec_filter_literals(metas: Seq<Meta>) -> Seq<Meta>
    decreases metas.len(),
{
    if metas.len() == 0 {
        Seq::empty()
    } else if metas[0] is Literal {
        spec_filter_literals(metas.drop_first())
    } else {
        seq![metas[0]] + spec_filter_literals(metas.drop_first())
    }
}

fn filter_literals(metas: Vec<Meta>) -> (r: Vec<Meta>)
    ensures
        r@ == spec_filter_literals(metas@),
    decreases metas@.len(),
{
    let ghost orig = metas@;
    let mut metas = metas;
    if metas.len() == 0 {
        let r: Vec<Meta> = Vec::new();
        proof {
            assert(r@ =~= spec_filter_literals(orig));
        }
        return r;
    }
    let ghost all = metas@;
    let first = metas.remove(0);
    proof {
        assert(all[0] == first);
        assert(metas@ =~= all.drop_first());
    }
    let is_literal = matches!(&first, Meta::Literal(_));
    let mut rest = filter_literals(metas);
    if is_literal {
        rest
    } else {
        rest.insert(0, first);
        proof {
            assert(rest@ =~= seq![first] + spec_filter_literals(all.drop_first()));
        }
        rest
    }
}

/// The meta items found under `#[opaque_typedef(derive(..))]`, across all
/// attributes, with literals dropped.
pub open spec fn spec_derive_metas(attrs: Seq<Attribute>) -> Seq<Meta>
    decreases attrs.len(),
{
    if attrs.len() == 0 {
        Seq::empty()
    } else {
        let head = match attrs[0].meta {
            Option::Some(m) => {
                if spec_is_attr_with_path(&attrs[0], seq!["opaque_typedef"@]) {
                    spec_filter_literals(
                        spec_meta_content_by_path(m, seq!["opaque_typedef"@, "derive"@]),
                    )
                } else {
                    Seq::empty()
                }
            },
            Option::None => Seq::empty(),
        };
        head + spec_derive_metas(attrs.drop_first())
    }
}

fn append_metas(dst: &mut Vec<Meta>, src: Vec<Meta>)
    ensures
        final(dst)@ == old(dst)@ + src@,
    decreases src@.len(),
{
    let mut src = src;
    if src.len() == 0 {
        proof {
            assert(dst@ + src@ =~= dst@);
        }
        return ;
    }
    let ghost all = src@;
    let first = src.remove(0);
    proof {
        assert(all[0] == first);
        assert(src@ =~= all.drop_first());
    }
    dst.push(first);
    append_metas(dst, src);
    proof {
        assert((old(dst)@ + seq![first]) + all.drop_first() =~= old(dst)@ + all);
    }
}

/// Returns the meta items in `#[opaque_typedef(derive(..))]` (the `..` part).
fn get_derive_meta(attrs: Vec<Attribute>) -> (r: Vec<Meta>)
    ensures
        r@ == spec_derive_metas(attrs@),
    decreases attrs@.len(),
{
    let ghost orig = attrs@;
    let mut attrs = attrs;
    if attrs.len() == 0 {
        let r: Vec<Meta> = Vec::new();
        proof {
            assert(r@ =~= spec_derive_metas(orig));
        }
        return r;
    }
    let ghost all = attrs@;
    let first = attrs.remove(0);
    proof {
        assert(all[0] == first);
        assert(attrs@ =~= all.drop_first());
    }
    let attr_path: Vec<&str> = vec!["opaque_typedef"];
    let matches_path = is_attr_with_path(&first, attr_path.as_slice());
    proof {
        assert(path_views(attr_path@) =~= seq!["opaque_typedef"@]);
    }
    let mut head: Vec<Meta> = if matches_path {
        match first.meta {
            Option::Some(m) => {
                let content_path: Vec<&str> = vec!["opaque_typedef", "derive"];
                proof {
                    assert(path_views(content_path@) =~= seq!["opaque_typedef"@, "derive"@]);
                }
                let content = get_meta_content_by_path(m, content_path.as_slice());
                filter_literals(content)
            },
            Option::None => Vec::new(),
        }
    } else {
        Vec::new()
    };
    let rest = get_derive_meta(attrs);
    append_metas(&mut head, rest);
    head
}

/// The first failure among the items of one grouped shorthand, with its
/// kind: true for an unknown capability, false for an unsupported form.
pub open spec fn spec_group_err(parent: Seq<char>, nested: Seq<Meta>) -> Option<(bool, Seq<char>)>
    decreases nested.len(),
{
    if nested.len() == 0 {
        None
    } else {
        let head = match nested[0] {
            Meta::Word(id) => {
                match spec_children_err(parent, seq![id@]) {
                    Option::Some(text) => Some((true, text)),
                    Option::None => None,
                }
            },
            Meta::List(id, _) => Some((false, parent + "("@ + id@ + "(..))"@)),
            Meta::NameValue(id, _) => Some((false, parent + "("@ + id@ + " = ..)"@)),
            Meta::Literal(text) => Some((false, parent + "("@ + text@ + ")"@)),
        };
        if head is Some {
            head
        } else {
            spec_group_err(parent, nested.drop_first())
        }
    }
}

/// The catalog entries requested by the items of one grouped shorthand, in
/// request order.
pub open spec fn spec_group_targets(parent: Seq<char>, nested: Seq<Meta>) -> Seq<Derive>
    decreases nested.len(),
{
    if nested.len() == 0 {
        Seq::empty()
    } else {
        let head = match nested[0] {
            Meta::Word(id) => spec_children_targets(parent, seq![id@]),
            _ => Seq::empty(),
        };
        head + spec_group_targets(parent, nested.drop_first())
    }
}

/// The first failure among a sequence of capability requests, with its kind:
/// true for an unknown capability, false for an unsupported form.
pub open spec fn spec_metas_err(metas: Seq<Meta>) -> Option<(bool, Seq<char>)>
    decreases metas.len(),
{
    if metas.len() == 0 {
        None
    } else {
        let head = match metas[0] {
            Meta::Word(id) => {
                if spec_flat_target(id@) is Some {
                    None
                } else {
                    Some((true, id@))
                }
            },
            Meta::List(parent, nested) => spec_group_err(parent@, nested@),
            Meta::NameValue(id, _) => Some((false, id@ + " = .."@)),
            Meta::Literal(_) => None,
        };
        if head is Some {
            head
        } else {
            spec_metas_err(metas.drop_first())
        }
    }
}

/// The catalog entries requested by a sequence of capability requests, in
/// request order.
pub open spec fn spec_metas_targets(metas: Seq<Meta>) -> Seq<Derive>
    decreases metas.len(),
{
    if metas.len() == 0 {
        Seq::empty()
    } else {
        let head = match metas[0] {
            Meta::Word(id) => {
                match spec_flat_target(id@) {
                    Option::Some(d) => seq![d],
                    Option::None => Seq::empty(),
                }
            },
            Meta::List(parent, nested) => spec_group_targets(parent@, nested@),
            _ => Seq::empty(),
        };
        head + spec_metas_targets(metas.drop_first())
    }
}

fn resolve_group(parent: &String, nested: Vec<Meta>, derives: &mut Vec<Derive>) -> (r: Result<
    (),
    CatalogError,
>)
    ensures
        match spec_group_err(parent@, nested@) {
            Option::None => r is Ok && final(derives)@ == old(derives)@ + spec_group_targets(
                parent@,
                nested@,
            ),
            Option::Some((kind, text)) => {
                &&& r is Err
                &&& kind ==> (r matches Err(CatalogError::UnknownCapability(t)) && t@ == text)
                &&& !kind ==> (r matches Err(CatalogError::UnsupportedGroupedForm(t)) && t@
                    == text)
            },
        },
    decreases nested@.len(),
{
    let mut nested = nested;
    if nested.len() == 0 {
        proof {
            assert(derives@ + spec_group_targets(parent@, nested@) =~= derives@);
        }
        return Ok(());
    }
    let ghost all = nested@;
    let first = nested.remove(0);
    proof {
        assert(all[0] == first);
        assert(nested@ =~= all.drop_first());
    }
    match first {
        Meta::Word(id) => {
            let mut children: Vec<&str> = Vec::new();
            children.push(id.as_str());
            proof {
                assert(path_views(children@) =~= seq![id@]);
            }
            let res = Derive::append_from_nested_names(
                parent.as_str(),
                children.as_slice(),
                derives,
            );
            match res {
                Ok(()) => {},
                Err(e) => {
                    return Err(e);
                },
            }
        },
        Meta::List(id, _) => {
            let mut text = parent.clone();
            text.append("(");
            text.append(id.as_str());
            text.append("(..))");
            return Err(CatalogError::UnsupportedGroupedForm(text));
        },
        Meta::NameValue(id, _) => {
            let mut text = parent.clone();
            text.append("(");
            text.append(id.as_str());
            text.append(" = ..)");
            return Err(CatalogError::UnsupportedGroupedForm(text));
        },
        Meta::Literal(lit) => {
            let mut text = parent.clone();
            text.append("(");
            text.append(lit.as_str());
            text.append(")");
            return Err(CatalogError::UnsupportedGroupedForm(text));
        },
    }
    let ghost mid = derives@;
    let r = resolve_group(parent, nested, derives);
    if r.is_ok() {
        proof {
            assert(derives@ =~= old(derives)@ + (spec_children_targets(
                parent@,
                seq![all[0]->Word_0@],
            ) + spec_group_targets(parent@, all.drop_first())));
        }
    }
    r
}

fn resolve_metas(metas: Vec<Meta>, derives: &mut Vec<Derive>) -> (r: Result<(), CatalogError>)
    ensures
        match spec_metas_err(metas@) {
            Option::None => r is Ok && final(derives)@ == old(derives)@ + spec_metas_targets(
                metas@,
            ),
            Option::Some((kind, text)) => {
                &&& r is Err
                &&& kind ==> (r matches Err(CatalogError::UnknownCapability(t)) && t@ == text)
                &&& !kind ==> (r matches Err(CatalogError::UnsupportedGroupedForm(t)) && t@
                    == text)
            },
        },
    decreases metas@.len(),
{
    let mut metas = metas;
    if metas.len() == 0 {
        proof {
            assert(derives@ + spec_metas_targets(metas@) =~= derives@);
        }
        return Ok(());
    }
    let ghost all = metas@;
    let first = metas.remove(0);
    proof {
        assert(all[0] == first);
        assert(metas@ =~= all.drop_first());
    }
    let ghost head_targets: Seq<Derive> = match all[0] {
        Meta::Word(id) => {
            match spec_flat_target(id@) {
                Option::Some(d) => seq![d],
                Option::None => Seq::empty(),
            }
        },
        Meta::List(parent, nested) => spec_group_targets(parent@, nested@),
        _ => Seq::empty(),
    };
    match first {
        Meta::Word(id) => {
            match flat_target(id.as_str()) {
                Option::Some(d) => {
                    derives.push(d);
                },
                Option::None => {
                    return Err(CatalogError::UnknownCapability(id));
                },
            }
        },
        Meta::List(parent, nested) => {
            let res = resolve_group(&parent, nested, derives);
            match res {
                Ok(()) => {},
                Err(e) => {
                    return Err(e);
                },
            }
        },
        Meta::NameValue(id, _) => {
            let mut text = id;
            text.append(" = ..");
            return Err(CatalogError::UnsupportedGroupedForm(text));
        },
        Meta::Literal(_) => {},
    }
    let ghost mid = derives@;
    proof {
        assert(mid =~= old(derives)@ + head_targets);
    }
    let r = resolve_metas(metas, derives);
    if r.is_ok() {
        proof {
            assert(derives@ =~= old(derives)@ + (head_targets + spec_metas_targets(
                all.drop_first(),
            )));
        }
    }
    r
}

impl Derive {
    /// Resolves the capability requests found in the given attributes, in
    /// request order, against the catalog. Fails on the first unknown name
    /// or unsupported request form, before resolving anything further.
    pub fn from_attrs(attrs: Vec<Attribute>) -> (r: Result<Vec<Derive>, CatalogError>)
        ensures
            match spec_metas_err(spec_derive_metas(attrs@)) {
                Option::None => r matches Ok(v) && v@ == spec_metas_targets(
                    spec_derive_metas(attrs@),
                ),
                Option::Some((kind, text)) => {
                    &&& r is Err
                    &&& kind ==> (r matches Err(CatalogError::UnknownCapability(t)) && t@ == text)
                    &&& !kind ==> (r matches Err(CatalogError::UnsupportedGroupedForm(t)) && t@
                        == text)
                },
            },
    {
        let metas = get_derive_meta(attrs);
        let mut derives: Vec<Derive> = Vec::new();
        match resolve_metas(metas, &mut derives) {
            Ok(()) => Ok(derives),
            Err(e) => Err(e),
        }
    }
}

/// Grouped shorthand expansion is order-preserving and does not
/// deduplicate: when every child of a recognized group resolves, the
/// expansion holds exactly one target per child, each the entry of the
/// child at the same position. Requesting the same child twice therefore
/// yields its target twice.
pub proof fn lemma_children_expansion_order(parent: Seq<char>, children: Seq<Seq<char>>)
    requires
        spec_children_err(parent, children) is None,
    ensures
        spec_children_targets(parent, children).len() == children.len(),
        forall|i: int|
            0 <= i < children.len() ==> #[trigger] spec_children_targets(parent, children)[i]
                == spec_group_target(parent, children[i])->0,
    decreases children.len(),
{
    if children.len() > 0 {
        lemma_children_expansion_order(parent, children.drop_first());
        let t0 = spec_group_target(parent, children[0])->0;
        let rest = spec_children_targets(parent, children.drop_first());
        assert(spec_children_targets(parent, children) =~= seq![t0] + rest);
        assert forall|i: int| 0 <= i < children.len() implies #[trigger] spec_children_targets(
            parent,
            children,
        )[i] == spec_group_target(parent, children[i])->0 by {
            if i > 0 {
                assert(children.drop_first()[i - 1] == children[i]);
                assert((seq![t0] + rest)[i] == rest[i - 1]);
            }
        }
    }
}

} // verus!
