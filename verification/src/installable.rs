//! What can be handed to Nix to build or to load.
use crate::os_text::OsText;
use crate::text::copy_strings;
use vstd::prelude::*;

verus! {

/// Something Nix can build or load.
#[derive(Debug, PartialEq, Eq)]
pub enum Installable {
    /// An attribute of a flake.
    Flake { reference: String, attribute: Vec<String> },
    /// An attribute of the expression in a file.
    File { path: OsText, attribute: Vec<String> },
    /// A path in the Nix store.
    Store { path: OsText },
    /// An attribute of an expression.
    Expression { expression: String, attribute: Vec<String> },
    /// Nothing was named.
    Unspecified,
}

/// The content of an [`Installable`].
#[verifier::ext_equal]
pub ghost enum InstallableView {
    Flake { reference: Seq<char>, attribute: Seq<Seq<char>> },
    File { path: Seq<u8>, attribute: Seq<Seq<char>> },
    Store { path: Seq<u8> },
    Expression { expression: Seq<char>, attribute: Seq<Seq<char>> },
    Unspecified,
}

impl View for Installable {
    type V = InstallableView;

    open spec fn view(&self) -> InstallableView {
        match *self {
            Installable::Flake { reference, attribute } => InstallableView::Flake {
                reference: reference@,
                attribute: attribute.deep_view(),
            },
            Installable::File { path, attribute } => InstallableView::File {
                path: path@,
                attribute: attribute.deep_view(),
            },
            Installable::Store { path } => InstallableView::Store { path: path@ },
            Installable::Expression { expression, attribute } => InstallableView::Expression {
                expression: expression@,
                attribute: attribute.deep_view(),
            },
            Installable::Unspecified => InstallableView::Unspecified,
        }
    }
}

impl Clone for Installable {
    fn clone(&self) -> (r: Self)
        ensures
            r@ == self@,
    {
        match self {
            Installable::Flake { reference, attribute } => Installable::Flake {
                reference: reference.clone(),
                attribute: copy_strings(attribute),
            },
            Installable::File { path, attribute } => Installable::File {
                path: path.clone(),
                attribute: copy_strings(attribute),
            },
            Installable::Store { path } => Installable::Store { path: path.clone() },
            Installable::Expression { expression, attribute } => Installable::Expression {
                expression: expression.clone(),
                attribute: copy_strings(attribute),
            },
            Installable::Unspecified => Installable::Unspecified,
        }
    }
}

/// The content of an installable tells its kind and all of its parts.
pub proof fn law_installable_content_is_complete(installable: Installable)
    ensures
        match installable {
            Installable::Flake { reference, attribute } => {
                &&& installable@ is Flake
                &&& installable@->Flake_reference == reference@
                &&& installable@->Flake_attribute == attribute.deep_view()
            },
            Installable::File { path, attribute } => {
                &&& installable@ is File
                &&& installable@->File_path == path.bytes@
                &&& installable@->File_attribute == attribute.deep_view()
            },
            Installable::Store { path } => {
                &&& installable@ is Store
                &&& installable@->Store_path == path.bytes@
            },
            Installable::Expression { expression, attribute } => {
                &&& installable@ is Expression
                &&& installable@->Expression_expression == expression@
                &&& installable@->Expression_attribute == attribute.deep_view()
            },
            Installable::Unspecified => installable@ is Unspecified,
        },
{
}

} // verus!
