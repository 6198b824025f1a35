//! The named attributes of a connection's transport security.

use vstd::prelude::*;
use crate::foreign::same_text;

verus! {

/// An attribute of the transport security layer. The set of names is open:
/// a name that is not one of the known ones is kept as it was reported.
#[derive(Clone, Debug, PartialEq, Eq)]
pub enum Attribute {
    /// Name of the security library in use.
    Library,
    /// Protocol version in use.
    Protocol,
    /// Number of key bits used by the encryption algorithm.
    KeyBits,
    /// Short name of the cipher suite in use.
    Cipher,
    /// Whether compression is in use, and which.
    Compression,
    /// Application protocol selected during the handshake.
    Alpn,
    /// An attribute known only by its name.
    Other(String),
}

/// An attribute as a mathematical value.
pub enum AttributeView {
    Library,
    Protocol,
    KeyBits,
    Cipher,
    Compression,
    Alpn,
    Other(Seq<char>),
}

impl AttributeView {
    /// The name under which the transport layer knows the attribute.
    pub open spec fn name(self) -> Seq<char> {
        match self {
            AttributeView::Library => "library"@,
            AttributeView::Protocol => "protocol"@,
            AttributeView::KeyBits => "key_bits"@,
            AttributeView::Cipher => "cipher"@,
            AttributeView::Compression => "compression"@,
            AttributeView::Alpn => "alpn"@,
            AttributeView::Other(name) => name,
        }
    }

    /// The attribute that a name stands for.
    pub open spec fn of_name(name: Seq<char>) -> AttributeView {
        if name == "library"@ {
            AttributeView::Library
        } else if name == "protocol"@ {
            AttributeView::Protocol
        } else if name == "key_bits"@ {
            AttributeView::KeyBits
        } else if name == "cipher"@ {
            AttributeView::Cipher
        } else if name == "compression"@ {
            AttributeView::Compression
        } else if name == "alpn"@ {
            AttributeView::Alpn
        } else {
            AttributeView::Other(name)
        }
    }

    /// Whether the attribute is the one that its own name stands for: true
    /// of every known attribute, and of an `Other` unless it carries a known
    /// name.
    pub open spec fn is_canonical(self) -> bool {
        self is Other ==> AttributeView::of_name(self->Other_0) is Other
    }
}

impl View for Attribute {
    type V = AttributeView;

    open spec fn view(&self) -> AttributeView {
        match self {
            Attribute::Library => AttributeView::Library,
            Attribute::Protocol => AttributeView::Protocol,
            Attribute::KeyBits => AttributeView::KeyBits,
            Attribute::Cipher => AttributeView::Cipher,
            Attribute::Compression => AttributeView::Compression,
            Attribute::Alpn => AttributeView::Alpn,
            Attribute::Other(name) => AttributeView::Other(name@),
        }
    }
}

impl DeepView for Attribute {
    type V = AttributeView;

    open spec fn deep_view(&self) -> AttributeView {
        self@
    }
}

impl Attribute {
    /// Resolves a reported name to its attribute. No name is dropped: one
    /// that is not known comes back as `Other` with the name inside.
    pub fn from_name(name: &str) -> (attribute: Attribute)
        ensures
            attribute@ == AttributeView::of_name(name@),
    {
        if same_text(name, "library") {
            Attribute::Library
        } else if same_text(name, "protocol") {
            Attribute::Protocol
        } else if same_text(name, "key_bits") {
            Attribute::KeyBits
        } else if same_text(name, "cipher") {
            Attribute::Cipher
        } else if same_text(name, "compression") {
            Attribute::Compression
        } else if same_text(name, "alpn") {
            Attribute::Alpn
        } else {
            Attribute::Other(name.to_owned())
        }
    }

    /// The name under which the transport layer knows the attribute.
    pub fn name(&self) -> (name: String)
        ensures
            name@ == self@.name(),
    {
        match self {
            Attribute::Library => "library".to_owned(),
            Attribute::Protocol => "protocol".to_owned(),
            Attribute::KeyBits => "key_bits".to_owned(),
            Attribute::Cipher => "cipher".to_owned(),
            Attribute::Compression => "compression".to_owned(),
            Attribute::Alpn => "alpn".to_owned(),
            Attribute::Other(name) => name.clone(),
        }
    }
}

/// Resolving a name loses nothing: the attribute that a name stands for
/// carries exactly that name.
pub proof fn lemma_name_is_kept(name: Seq<char>)
    ensures
        AttributeView::of_name(name).name() == name,
        AttributeView::of_name(name).is_canonical(),
{
}

/// A canonical attribute is the one that its name stands for, so the six
/// known names are pairwise different.
pub proof fn lemma_attribute_is_found_by_name(attribute: AttributeView)
    requires
        attribute.is_canonical(),
    ensures
        AttributeView::of_name(attribute.name()) == attribute,
{
    reveal_strlit("library");
    reveal_strlit("protocol");
    reveal_strlit("key_bits");
    reveal_strlit("cipher");
    reveal_strlit("compression");
    reveal_strlit("alpn");
    assert("library"@.len() == 7);
    assert("protocol"@.len() == 8);
    assert("key_bits"@.len() == 8);
    assert("cipher"@.len() == 6);
    assert("compression"@.len() == 11);
    assert("alpn"@.len() == 4);
    assert("protocol"@[0] == 'p');
    assert("key_bits"@[0] == 'k');
}

} // verus!
