//! The typed layer over the tree: one view per kind of node, each with the
//! accessors for its slots, and the unions over the shapes that can stand in
//! one place.
//!
//! A typed view is a [`SyntaxNode`] whose kind is known. An accessor for a
//! required piece answers [`SyntaxError::MissingRequiredChild`] where the slot
//! is empty or holds something of another kind; an accessor for an optional
//! piece answers nothing in that case. The slot numbers are those of the
//! grammar, punctuation included.
use vstd::prelude::*;
use crate::kind::SyntaxKind;
use crate::syntax::{required, JsSyntaxToken, SyntaxError, SyntaxNode, SyntaxResult};
use crate::tree::{entry_ok, well_formed, NodeModel, ATTRIBUTES_SLOT, CHILDREN_SLOT};

verus! {

/// The name of a tag or an attribute: `div`, `aria-hidden`.
#[derive(Clone, Copy, Debug)]
pub struct JsxName<'a> {
    pub(crate) syntax: SyntaxNode<'a>,
}

impl<'a> JsxName<'a> {
    /// The view points at a node of kind [`SyntaxKind::JsxName`].
    #[verifier::type_invariant]
    pub open(crate) spec fn wf(&self) -> bool {
        self.syntax.wf() && self.syntax.kind() == SyntaxKind::JsxName
    }

    pub open(crate) spec fn spec_cast(syntax: SyntaxNode<'a>) -> Option<Self> {
        if syntax.kind() == SyntaxKind::JsxName {
            Some(JsxName { syntax })
        } else {
            None
        }
    }

    /// The typed view of `syntax`, where it has the kind of this node.
    #[verifier::when_used_as_spec(spec_cast)]
    pub fn cast(syntax: SyntaxNode<'a>) -> (r: Option<Self>)
        ensures
            r == Self::spec_cast(syntax),
    {
        proof {
            use_type_invariant(&syntax);
        }
        if syntax.kind() == SyntaxKind::JsxName {
            Some(JsxName { syntax })
        } else {
            None
        }
    }

    pub open(crate) spec fn spec_syntax(&self) -> SyntaxNode<'a> {
        self.syntax
    }

    /// The untyped node under the view.
    #[verifier::when_used_as_spec(spec_syntax)]
    pub fn syntax(&self) -> (r: SyntaxNode<'a>)
        ensures
            r == self.spec_syntax(),
    {
        self.syntax
    }

    pub open spec fn spec_value_token(&self) -> SyntaxResult<JsSyntaxToken<'a>> {
        self.syntax().required_token(0, SyntaxKind::JsxIdent)
    }

    /// The identifier that is the name.
    #[verifier::when_used_as_spec(spec_value_token)]
    pub fn value_token(&self) -> (r: SyntaxResult<JsSyntaxToken<'a>>)
        ensures
            r == self.spec_value_token(),
    {
        self.syntax.required_token(0, SyntaxKind::JsxIdent)
    }
}

/// A name of the host language, as it follows the dot in `Foo.Bar`.
#[derive(Clone, Copy, Debug)]
pub struct JsName<'a> {
    pub(crate) syntax: SyntaxNode<'a>,
}

impl<'a> JsName<'a> {
    /// The view points at a node of kind [`SyntaxKind::JsName`].
    #[verifier::type_invariant]
    pub open(crate) spec fn wf(&self) -> bool {
        self.syntax.wf() && self.syntax.kind() == SyntaxKind::JsName
    }

    pub open(crate) spec fn spec_cast(syntax: SyntaxNode<'a>) -> Option<Self> {
        if syntax.kind() == SyntaxKind::JsName {
            Some(JsName { syntax })
        } else {
            None
        }
    }

    /// The typed view of `syntax`, where it has the kind of this node.
    #[verifier::when_used_as_spec(spec_cast)]
    pub fn cast(syntax: SyntaxNode<'a>) -> (r: Option<Self>)
        ensures
            r == Self::spec_cast(syntax),
    {
        proof {
            use_type_invariant(&syntax);
        }
        if syntax.kind() == SyntaxKind::JsName {
            Some(JsName { syntax })
        } else {
            None
        }
    }

    pub open(crate) spec fn spec_syntax(&self) -> SyntaxNode<'a> {
        self.syntax
    }

    /// The untyped node under the view.
    #[verifier::when_used_as_spec(spec_syntax)]
    pub fn syntax(&self) -> (r: SyntaxNode<'a>)
        ensures
            r == self.spec_syntax(),
    {
        self.syntax
    }

    pub open spec fn spec_value_token(&self) -> SyntaxResult<JsSyntaxToken<'a>> {
        self.syntax().required_token(0, SyntaxKind::Ident)
    }

    /// The identifier that is the name.
    #[verifier::when_used_as_spec(spec_value_token)]
    pub fn value_token(&self) -> (r: SyntaxResult<JsSyntaxToken<'a>>)
        ensures
            r == self.spec_value_token(),
    {
        self.syntax.required_token(0, SyntaxKind::Ident)
    }
}

/// A tag name that refers to a binding in scope: `Foo`.
#[derive(Clone, Copy, Debug)]
pub struct JsxReferenceIdentifier<'a> {
    pub(crate) syntax: SyntaxNode<'a>,
}

impl<'a> JsxReferenceIdentifier<'a> {
    /// The view points at a node of kind [`SyntaxKind::JsxReferenceIdentifier`].
    #[verifier::type_invariant]
    pub open(crate) spec fn wf(&self) -> bool {
        self.syntax.wf() && self.syntax.kind() == SyntaxKind::JsxReferenceIdentifier
    }

    pub open(crate) spec fn spec_cast(syntax: SyntaxNode<'a>) -> Option<Self> {
        if syntax.kind() == SyntaxKind::JsxReferenceIdentifier {
            Some(JsxReferenceIdentifier { syntax })
        } else {
            None
        }
    }

    /// The typed view of `syntax`, where it has the kind of this node.
    #[verifier::when_used_as_spec(spec_cast)]
    pub fn cast(syntax: SyntaxNode<'a>) -> (r: Option<Self>)
        ensures
            r == Self::spec_cast(syntax),
    {
        proof {
            use_type_invariant(&syntax);
        }
        if syntax.kind() == SyntaxKind::JsxReferenceIdentifier {
            Some(JsxReferenceIdentifier { syntax })
        } else {
            None
        }
    }

    pub open(crate) spec fn spec_syntax(&self) -> SyntaxNode<'a> {
        self.syntax
    }

    /// The untyped node under the view.
    #[verifier::when_used_as_spec(spec_syntax)]
    pub fn syntax(&self) -> (r: SyntaxNode<'a>)
        ensures
            r == self.spec_syntax(),
    {
        self.syntax
    }

    pub open spec fn spec_value_token(&self) -> SyntaxResult<JsSyntaxToken<'a>> {
        self.syntax().required_token(0, SyntaxKind::JsxIdent)
    }

    /// The identifier that is the name.
    #[verifier::when_used_as_spec(spec_value_token)]
    pub fn value_token(&self) -> (r: SyntaxResult<JsSyntaxToken<'a>>)
        ensures
            r == self.spec_value_token(),
    {
        self.syntax.required_token(0, SyntaxKind::JsxIdent)
    }
}

/// A name with a namespace: `ns:name`.
#[derive(Clone, Copy, Debug)]
pub struct JsxNamespaceName<'a> {
    pub(crate) syntax: SyntaxNode<'a>,
}

impl<'a> JsxNamespaceName<'a> {
    /// The view points at a node of kind [`SyntaxKind::JsxNamespaceName`].
    #[verifier::type_invariant]
    pub open(crate) spec fn wf(&self) -> bool {
        self.syntax.wf() && self.syntax.kind() == SyntaxKind::JsxNamespaceName
    }

    pub open(crate) spec fn spec_cast(syntax: SyntaxNode<'a>) -> Option<Self> {
        if syntax.kind() == SyntaxKind::JsxNamespaceName {
            Some(JsxNamespaceName { syntax })
        } else {
            None
        }
    }

    /// The typed view of `syntax`, where it has the kind of this node.
    #[verifier::when_used_as_spec(spec_cast)]
    pub fn cast(syntax: SyntaxNode<'a>) -> (r: Option<Self>)
        ensures
            r == Self::spec_cast(syntax),
    {
        proof {
            use_type_invariant(&syntax);
        }
        if syntax.kind() == SyntaxKind::JsxNamespaceName {
            Some(JsxNamespaceName { syntax })
        } else {
            None
        }
    }

    pub open(crate) spec fn spec_syntax(&self) -> SyntaxNode<'a> {
        self.syntax
    }

    /// The untyped node under the view.
    #[verifier::when_used_as_spec(spec_syntax)]
    pub fn syntax(&self) -> (r: SyntaxNode<'a>)
        ensures
            r == self.spec_syntax(),
    {
        self.syntax
    }

    pub open spec fn spec_namespace(&self) -> SyntaxResult<JsxName<'a>> {
        required(
            match self.syntax().node_slot(0) {
                Some(node) => JsxName::cast(node),
                None => None,
            },
        )
    }

    /// The part before the colon.
    #[verifier::when_used_as_spec(spec_namespace)]
    pub fn namespace(&self) -> (r: SyntaxResult<JsxName<'a>>)
        ensures
            r == self.spec_namespace(),
    {
        match self.syntax.node_slot(0) {
            Some(node) => required(JsxName::cast(node)),
            None => Err(SyntaxError::MissingRequiredChild),
        }
    }

    pub open spec fn spec_name(&self) -> SyntaxResult<JsxName<'a>> {
        required(
            match self.syntax().node_slot(2) {
                Some(node) => JsxName::cast(node),
                None => None,
            },
        )
    }

    /// The part after the colon.
    #[verifier::when_used_as_spec(spec_name)]
    pub fn name(&self) -> (r: SyntaxResult<JsxName<'a>>)
        ensures
            r == self.spec_name(),
    {
        match self.syntax.node_slot(2) {
            Some(node) => required(JsxName::cast(node)),
            None => Err(SyntaxError::MissingRequiredChild),
        }
    }
}

/// A tag name that selects a member: `Foo.Bar`.
#[derive(Clone, Copy, Debug)]
pub struct JsxMemberName<'a> {
    pub(crate) syntax: SyntaxNode<'a>,
}

impl<'a> JsxMemberName<'a> {
    /// The view points at a node of kind [`SyntaxKind::JsxMemberName`].
    #[verifier::type_invariant]
    pub open(crate) spec fn wf(&self) -> bool {
        self.syntax.wf() && self.syntax.kind() == SyntaxKind::JsxMemberName
    }

    pub open(crate) spec fn spec_cast(syntax: SyntaxNode<'a>) -> Option<Self> {
        if syntax.kind() == SyntaxKind::JsxMemberName {
            Some(JsxMemberName { syntax })
        } else {
            None
        }
    }

    /// The typed view of `syntax`, where it has the kind of this node.
    #[verifier::when_used_as_spec(spec_cast)]
    pub fn cast(syntax: SyntaxNode<'a>) -> (r: Option<Self>)
        ensures
            r == Self::spec_cast(syntax),
    {
        proof {
            use_type_invariant(&syntax);
        }
        if syntax.kind() == SyntaxKind::JsxMemberName {
            Some(JsxMemberName { syntax })
        } else {
            None
        }
    }

    pub open(crate) spec fn spec_syntax(&self) -> SyntaxNode<'a> {
        self.syntax
    }

    /// The untyped node under the view.
    #[verifier::when_used_as_spec(spec_syntax)]
    pub fn syntax(&self) -> (r: SyntaxNode<'a>)
        ensures
            r == self.spec_syntax(),
    {
        self.syntax
    }

    pub open spec fn spec_member(&self) -> SyntaxResult<JsName<'a>> {
        required(
            match self.syntax().node_slot(2) {
                Some(node) => JsName::cast(node),
                None => None,
            },
        )
    }

    /// The part after the last dot.
    #[verifier::when_used_as_spec(spec_member)]
    pub fn member(&self) -> (r: SyntaxResult<JsName<'a>>)
        ensures
            r == self.spec_member(),
    {
        match self.syntax.node_slot(2) {
            Some(node) => required(JsName::cast(node)),
            None => Err(SyntaxError::MissingRequiredChild),
        }
    }
}

/// The name of an element, in one of the four shapes a tag name can take.
#[derive(Clone, Copy, Debug)]
pub enum AnyJsxElementName<'a> {
    JsxName(JsxName<'a>),
    JsxMemberName(JsxMemberName<'a>),
    JsxNamespaceName(JsxNamespaceName<'a>),
    JsxReferenceIdentifier(JsxReferenceIdentifier<'a>),
}

impl<'a> AnyJsxElementName<'a> {
    /// The view under the variant is in order.
    pub open(crate) spec fn wf(&self) -> bool {
        match self {
            AnyJsxElementName::JsxName(node) => node.wf(),
            AnyJsxElementName::JsxMemberName(node) => node.wf(),
            AnyJsxElementName::JsxNamespaceName(node) => node.wf(),
            AnyJsxElementName::JsxReferenceIdentifier(node) => node.wf(),
        }
    }

    pub open(crate) spec fn spec_cast(syntax: SyntaxNode<'a>) -> Option<Self> {
        match syntax.kind() {
            SyntaxKind::JsxName => Some(AnyJsxElementName::JsxName(JsxName { syntax })),
            SyntaxKind::JsxMemberName => Some(AnyJsxElementName::JsxMemberName(JsxMemberName { syntax })),
            SyntaxKind::JsxNamespaceName => Some(
                AnyJsxElementName::JsxNamespaceName(JsxNamespaceName { syntax }),
            ),
            SyntaxKind::JsxReferenceIdentifier => Some(
                AnyJsxElementName::JsxReferenceIdentifier(JsxReferenceIdentifier { syntax }),
            ),
            _ => None,
        }
    }

    /// The typed view of `syntax`, where it has the kind of one of the variants.
    #[verifier::when_used_as_spec(spec_cast)]
    pub fn cast(syntax: SyntaxNode<'a>) -> (r: Option<Self>)
        ensures
            r == Self::spec_cast(syntax),
    {
        proof {
            use_type_invariant(&syntax);
        }
        match syntax.kind() {
            SyntaxKind::JsxName => Some(AnyJsxElementName::JsxName(JsxName { syntax })),
            SyntaxKind::JsxMemberName => Some(AnyJsxElementName::JsxMemberName(JsxMemberName { syntax })),
            SyntaxKind::JsxNamespaceName => Some(
                AnyJsxElementName::JsxNamespaceName(JsxNamespaceName { syntax }),
            ),
            SyntaxKind::JsxReferenceIdentifier => Some(
                AnyJsxElementName::JsxReferenceIdentifier(JsxReferenceIdentifier { syntax }),
            ),
            _ => None,
        }
    }

    pub open spec fn spec_syntax(&self) -> SyntaxNode<'a> {
        match self {
            AnyJsxElementName::JsxName(node) => node.syntax(),
            AnyJsxElementName::JsxMemberName(node) => node.syntax(),
            AnyJsxElementName::JsxNamespaceName(node) => node.syntax(),
            AnyJsxElementName::JsxReferenceIdentifier(node) => node.syntax(),
        }
    }

    /// The untyped node under the view.
    #[verifier::when_used_as_spec(spec_syntax)]
    pub fn syntax(&self) -> (r: SyntaxNode<'a>)
        ensures
            r == self.spec_syntax(),
    {
        match self {
            AnyJsxElementName::JsxName(node) => node.syntax(),
            AnyJsxElementName::JsxMemberName(node) => node.syntax(),
            AnyJsxElementName::JsxNamespaceName(node) => node.syntax(),
            AnyJsxElementName::JsxReferenceIdentifier(node) => node.syntax(),
        }
    }

    pub open spec fn spec_as_jsx_name(&self) -> Option<JsxName<'a>> {
        match self {
            AnyJsxElementName::JsxName(node) => Some(*node),
            _ => None,
        }
    }

    /// The view as a [`JsxName`], where it is one.
    #[verifier::when_used_as_spec(spec_as_jsx_name)]
    pub fn as_jsx_name(&self) -> (r: Option<JsxName<'a>>)
        ensures
            r == self.spec_as_jsx_name(),
    {
        match self {
            AnyJsxElementName::JsxName(node) => Some(*node),
            _ => None,
        }
    }
}

/// The name of an attribute, plain or with a namespace.
#[derive(Clone, Copy, Debug)]
pub enum AnyJsxAttributeName<'a> {
    JsxName(JsxName<'a>),
    JsxNamespaceName(JsxNamespaceName<'a>),
}

impl<'a> AnyJsxAttributeName<'a> {
    /// The view under the variant is in order.
    pub open(crate) spec fn wf(&self) -> bool {
        match self {
            AnyJsxAttributeName::JsxName(node) => node.wf(),
            AnyJsxAttributeName::JsxNamespaceName(node) => node.wf(),
        }
    }

    pub open(crate) spec fn spec_cast(syntax: SyntaxNode<'a>) -> Option<Self> {
        match syntax.kind() {
            SyntaxKind::JsxName => Some(AnyJsxAttributeName::JsxName(JsxName { syntax })),
            SyntaxKind::JsxNamespaceName => Some(
                AnyJsxAttributeName::JsxNamespaceName(JsxNamespaceName { syntax }),
            ),
            _ => None,
        }
    }

    /// The typed view of `syntax`, where it has the kind of one of the variants.
    #[verifier::when_used_as_spec(spec_cast)]
    pub fn cast(syntax: SyntaxNode<'a>) -> (r: Option<Self>)
        ensures
            r == Self::spec_cast(syntax),
    {
        proof {
            use_type_invariant(&syntax);
        }
        match syntax.kind() {
            SyntaxKind::JsxName => Some(AnyJsxAttributeName::JsxName(JsxName { syntax })),
            SyntaxKind::JsxNamespaceName => Some(
                AnyJsxAttributeName::JsxNamespaceName(JsxNamespaceName { syntax }),
            ),
            _ => None,
        }
    }

    pub open spec fn spec_syntax(&self) -> SyntaxNode<'a> {
        match self {
            AnyJsxAttributeName::JsxName(node) => node.syntax(),
            AnyJsxAttributeName::JsxNamespaceName(node) => node.syntax(),
        }
    }

    /// The untyped node under the view.
    #[verifier::when_used_as_spec(spec_syntax)]
    pub fn syntax(&self) -> (r: SyntaxNode<'a>)
        ensures
            r == self.spec_syntax(),
    {
        match self {
            AnyJsxAttributeName::JsxName(node) => node.syntax(),
            AnyJsxAttributeName::JsxNamespaceName(node) => node.syntax(),
        }
    }

    pub open spec fn spec_as_jsx_name(&self) -> Option<JsxName<'a>> {
        match self {
            AnyJsxAttributeName::JsxName(node) => Some(*node),
            _ => None,
        }
    }

    /// The view as a [`JsxName`], where it is one.
    #[verifier::when_used_as_spec(spec_as_jsx_name)]
    pub fn as_jsx_name(&self) -> (r: Option<JsxName<'a>>)
        ensures
            r == self.spec_as_jsx_name(),
    {
        match self {
            AnyJsxAttributeName::JsxName(node) => Some(*node),
            _ => None,
        }
    }
}

/// A quoted string as the value of an attribute: `"button"`.
#[derive(Clone, Copy, Debug)]
pub struct JsxString<'a> {
    pub(crate) syntax: SyntaxNode<'a>,
}

impl<'a> JsxString<'a> {
    /// The view points at a node of kind [`SyntaxKind::JsxString`].
    #[verifier::type_invariant]
    pub open(crate) spec fn wf(&self) -> bool {
        self.syntax.wf() && self.syntax.kind() == SyntaxKind::JsxString
    }

    pub open(crate) spec fn spec_cast(syntax: SyntaxNode<'a>) -> Option<Self> {
        if syntax.kind() == SyntaxKind::JsxString {
            Some(JsxString { syntax })
        } else {
            None
        }
    }

    /// The typed view of `syntax`, where it has the kind of this node.
    #[verifier::when_used_as_spec(spec_cast)]
    pub fn cast(syntax: SyntaxNode<'a>) -> (r: Option<Self>)
        ensures
            r == Self::spec_cast(syntax),
    {
        proof {
            use_type_invariant(&syntax);
        }
        if syntax.kind() == SyntaxKind::JsxString {
            Some(JsxString { syntax })
        } else {
            None
        }
    }

    pub open(crate) spec fn spec_syntax(&self) -> SyntaxNode<'a> {
        self.syntax
    }

    /// The untyped node under the view.
    #[verifier::when_used_as_spec(spec_syntax)]
    pub fn syntax(&self) -> (r: SyntaxNode<'a>)
        ensures
            r == self.spec_syntax(),
    {
        self.syntax
    }

    pub open spec fn spec_value_token(&self) -> SyntaxResult<JsSyntaxToken<'a>> {
        self.syntax().required_token(0, SyntaxKind::JsxStringLiteral)
    }

    /// The string literal, quotes included.
    #[verifier::when_used_as_spec(spec_value_token)]
    pub fn value_token(&self) -> (r: SyntaxResult<JsSyntaxToken<'a>>)
        ensures
            r == self.spec_value_token(),
    {
        self.syntax.required_token(0, SyntaxKind::JsxStringLiteral)
    }
}

/// An expression in braces as the value of an attribute: `{cond}`.
#[derive(Clone, Copy, Debug)]
pub struct JsxExpressionAttributeValue<'a> {
    pub(crate) syntax: SyntaxNode<'a>,
}

impl<'a> JsxExpressionAttributeValue<'a> {
    /// The view points at a node of kind [`SyntaxKind::JsxExpressionAttributeValue`].
    #[verifier::type_invariant]
    pub open(crate) spec fn wf(&self) -> bool {
        self.syntax.wf() && self.syntax.kind() == SyntaxKind::JsxExpressionAttributeValue
    }

    pub open(crate) spec fn spec_cast(syntax: SyntaxNode<'a>) -> Option<Self> {
        if syntax.kind() == SyntaxKind::JsxExpressionAttributeValue {
            Some(JsxExpressionAttributeValue { syntax })
        } else {
            None
        }
    }

    /// The typed view of `syntax`, where it has the kind of this node.
    #[verifier::when_used_as_spec(spec_cast)]
    pub fn cast(syntax: SyntaxNode<'a>) -> (r: Option<Self>)
        ensures
            r == Self::spec_cast(syntax),
    {
        proof {
            use_type_invariant(&syntax);
        }
        if syntax.kind() == SyntaxKind::JsxExpressionAttributeValue {
            Some(JsxExpressionAttributeValue { syntax })
        } else {
            None
        }
    }

    pub open(crate) spec fn spec_syntax(&self) -> SyntaxNode<'a> {
        self.syntax
    }

    /// The untyped node under the view.
    #[verifier::when_used_as_spec(spec_syntax)]
    pub fn syntax(&self) -> (r: SyntaxNode<'a>)
        ensures
            r == self.spec_syntax(),
    {
        self.syntax
    }

    pub open spec fn spec_expression(&self) -> SyntaxResult<AnyJsExpression<'a>> {
        required(
            match self.syntax().node_slot(1) {
                Some(node) => AnyJsExpression::cast(node),
                None => None,
            },
        )
    }

    /// The expression between the braces.
    #[verifier::when_used_as_spec(spec_expression)]
    pub fn expression(&self) -> (r: SyntaxResult<AnyJsExpression<'a>>)
        ensures
            r == self.spec_expression(),
    {
        match self.syntax.node_slot(1) {
            Some(node) => required(AnyJsExpression::cast(node)),
            None => Err(SyntaxError::MissingRequiredChild),
        }
    }
}

/// The `=value` part of an attribute.
#[derive(Clone, Copy, Debug)]
pub struct JsxAttributeInitializerClause<'a> {
    pub(crate) syntax: SyntaxNode<'a>,
}

impl<'a> JsxAttributeInitializerClause<'a> {
    /// The view points at a node of kind [`SyntaxKind::JsxAttributeInitializerClause`].
    #[verifier::type_invariant]
    pub open(crate) spec fn wf(&self) -> bool {
        self.syntax.wf() && self.syntax.kind() == SyntaxKind::JsxAttributeInitializerClause
    }

    pub open(crate) spec fn spec_cast(syntax: SyntaxNode<'a>) -> Option<Self> {
        if syntax.kind() == SyntaxKind::JsxAttributeInitializerClause {
            Some(JsxAttributeInitializerClause { syntax })
        } else {
            None
        }
    }

    /// The typed view of `syntax`, where it has the kind of this node.
    #[verifier::when_used_as_spec(spec_cast)]
    pub fn cast(syntax: SyntaxNode<'a>) -> (r: Option<Self>)
        ensures
            r == Self::spec_cast(syntax),
    {
        proof {
            use_type_invariant(&syntax);
        }
        if syntax.kind() == SyntaxKind::JsxAttributeInitializerClause {
            Some(JsxAttributeInitializerClause { syntax })
        } else {
            None
        }
    }

    pub open(crate) spec fn spec_syntax(&self) -> SyntaxNode<'a> {
        self.syntax
    }

    /// The untyped node under the view.
    #[verifier::when_used_as_spec(spec_syntax)]
    pub fn syntax(&self) -> (r: SyntaxNode<'a>)
        ensures
            r == self.spec_syntax(),
    {
        self.syntax
    }

    pub open spec fn spec_value(&self) -> SyntaxResult<AnyJsxAttributeValue<'a>> {
        required(
            match self.syntax().node_slot(1) {
                Some(node) => AnyJsxAttributeValue::cast(node),
                None => None,
            },
        )
    }

    /// The value after the `=`.
    #[verifier::when_used_as_spec(spec_value)]
    pub fn value(&self) -> (r: SyntaxResult<AnyJsxAttributeValue<'a>>)
        ensures
            r == self.spec_value(),
    {
        match self.syntax.node_slot(1) {
            Some(node) => required(AnyJsxAttributeValue::cast(node)),
            None => Err(SyntaxError::MissingRequiredChild),
        }
    }
}

/// An attribute with a name: `disabled` or `type="button"`.
#[derive(Clone, Copy, Debug)]
pub struct JsxAttribute<'a> {
    pub(crate) syntax: SyntaxNode<'a>,
}

impl<'a> JsxAttribute<'a> {
    /// The view points at a node of kind [`SyntaxKind::JsxAttribute`].
    #[verifier::type_invariant]
    pub open(crate) spec fn wf(&self) -> bool {
        self.syntax.wf() && self.syntax.kind() == SyntaxKind::JsxAttribute
    }

    pub open(crate) spec fn spec_cast(syntax: SyntaxNode<'a>) -> Option<Self> {
        if syntax.kind() == SyntaxKind::JsxAttribute {
            Some(JsxAttribute { syntax })
        } else {
            None
        }
    }

    /// The typed view of `syntax`, where it has the kind of this node.
    #[verifier::when_used_as_spec(spec_cast)]
    pub fn cast(syntax: SyntaxNode<'a>) -> (r: Option<Self>)
        ensures
            r == Self::spec_cast(syntax),
    {
        proof {
            use_type_invariant(&syntax);
        }
        if syntax.kind() == SyntaxKind::JsxAttribute {
            Some(JsxAttribute { syntax })
        } else {
            None
        }
    }

    pub open(crate) spec fn spec_syntax(&self) -> SyntaxNode<'a> {
        self.syntax
    }

    /// The untyped node under the view.
    #[verifier::when_used_as_spec(spec_syntax)]
    pub fn syntax(&self) -> (r: SyntaxNode<'a>)
        ensures
            r == self.spec_syntax(),
    {
        self.syntax
    }

    pub open spec fn spec_name(&self) -> SyntaxResult<AnyJsxAttributeName<'a>> {
        required(
            match self.syntax().node_slot(0) {
                Some(node) => AnyJsxAttributeName::cast(node),
                None => None,
            },
        )
    }

    /// The name of the attribute.
    #[verifier::when_used_as_spec(spec_name)]
    pub fn name(&self) -> (r: SyntaxResult<AnyJsxAttributeName<'a>>)
        ensures
            r == self.spec_name(),
    {
        match self.syntax.node_slot(0) {
            Some(node) => required(AnyJsxAttributeName::cast(node)),
            None => Err(SyntaxError::MissingRequiredChild),
        }
    }

    pub open spec fn spec_initializer(&self) -> Option<JsxAttributeInitializerClause<'a>> {
        match self.syntax().node_slot(1) {
            Some(node) => JsxAttributeInitializerClause::cast(node),
            None => None,
        }
    }

    /// The `=value` part; nothing for a shorthand such as `disabled`.
    #[verifier::when_used_as_spec(spec_initializer)]
    pub fn initializer(&self) -> (r: Option<JsxAttributeInitializerClause<'a>>)
        ensures
            r == self.spec_initializer(),
    {
        match self.syntax.node_slot(1) {
            Some(node) => JsxAttributeInitializerClause::cast(node),
            None => None,
        }
    }
}

/// A spread attribute: `{...props}`. It has no name.
#[derive(Clone, Copy, Debug)]
pub struct JsxSpreadAttribute<'a> {
    pub(crate) syntax: SyntaxNode<'a>,
}

impl<'a> JsxSpreadAttribute<'a> {
    /// The view points at a node of kind [`SyntaxKind::JsxSpreadAttribute`].
    #[verifier::type_invariant]
    pub open(crate) spec fn wf(&self) -> bool {
        self.syntax.wf() && self.syntax.kind() == SyntaxKind::JsxSpreadAttribute
    }

    pub open(crate) spec fn spec_cast(syntax: SyntaxNode<'a>) -> Option<Self> {
        if syntax.kind() == SyntaxKind::JsxSpreadAttribute {
            Some(JsxSpreadAttribute { syntax })
        } else {
            None
        }
    }

    /// The typed view of `syntax`, where it has the kind of this node.
    #[verifier::when_used_as_spec(spec_cast)]
    pub fn cast(syntax: SyntaxNode<'a>) -> (r: Option<Self>)
        ensures
            r == Self::spec_cast(syntax),
    {
        proof {
            use_type_invariant(&syntax);
        }
        if syntax.kind() == SyntaxKind::JsxSpreadAttribute {
            Some(JsxSpreadAttribute { syntax })
        } else {
            None
        }
    }

    pub open(crate) spec fn spec_syntax(&self) -> SyntaxNode<'a> {
        self.syntax
    }

    /// The untyped node under the view.
    #[verifier::when_used_as_spec(spec_syntax)]
    pub fn syntax(&self) -> (r: SyntaxNode<'a>)
        ensures
            r == self.spec_syntax(),
    {
        self.syntax
    }

    pub open spec fn spec_argument(&self) -> SyntaxResult<AnyJsExpression<'a>> {
        required(
            match self.syntax().node_slot(2) {
                Some(node) => AnyJsExpression::cast(node),
                None => None,
            },
        )
    }

    /// The expression whose properties are spread.
    #[verifier::when_used_as_spec(spec_argument)]
    pub fn argument(&self) -> (r: SyntaxResult<AnyJsExpression<'a>>)
        ensures
            r == self.spec_argument(),
    {
        match self.syntax.node_slot(2) {
            Some(node) => required(AnyJsExpression::cast(node)),
            None => Err(SyntaxError::MissingRequiredChild),
        }
    }
}

/// An entry of an attribute list.
#[derive(Clone, Copy, Debug)]
pub enum AnyJsxAttribute<'a> {
    JsxAttribute(JsxAttribute<'a>),
    JsxSpreadAttribute(JsxSpreadAttribute<'a>),
}

impl<'a> AnyJsxAttribute<'a> {
    /// The view under the variant is in order.
    pub open(crate) spec fn wf(&self) -> bool {
        match self {
            AnyJsxAttribute::JsxAttribute(node) => node.wf(),
            AnyJsxAttribute::JsxSpreadAttribute(node) => node.wf(),
        }
    }

    pub open(crate) spec fn spec_cast(syntax: SyntaxNode<'a>) -> Option<Self> {
        match syntax.kind() {
            SyntaxKind::JsxAttribute => Some(AnyJsxAttribute::JsxAttribute(JsxAttribute { syntax })),
            SyntaxKind::JsxSpreadAttribute => Some(
                AnyJsxAttribute::JsxSpreadAttribute(JsxSpreadAttribute { syntax }),
            ),
            _ => None,
        }
    }

    /// The typed view of `syntax`, where it has the kind of one of the variants.
    #[verifier::when_used_as_spec(spec_cast)]
    pub fn cast(syntax: SyntaxNode<'a>) -> (r: Option<Self>)
        ensures
            r == Self::spec_cast(syntax),
    {
        proof {
            use_type_invariant(&syntax);
        }
        match syntax.kind() {
            SyntaxKind::JsxAttribute => Some(AnyJsxAttribute::JsxAttribute(JsxAttribute { syntax })),
            SyntaxKind::JsxSpreadAttribute => Some(
                AnyJsxAttribute::JsxSpreadAttribute(JsxSpreadAttribute { syntax }),
            ),
            _ => None,
        }
    }

    pub open spec fn spec_syntax(&self) -> SyntaxNode<'a> {
        match self {
            AnyJsxAttribute::JsxAttribute(node) => node.syntax(),
            AnyJsxAttribute::JsxSpreadAttribute(node) => node.syntax(),
        }
    }

    /// The untyped node under the view.
    #[verifier::when_used_as_spec(spec_syntax)]
    pub fn syntax(&self) -> (r: SyntaxNode<'a>)
        ensures
            r == self.spec_syntax(),
    {
        match self {
            AnyJsxAttribute::JsxAttribute(node) => node.syntax(),
            AnyJsxAttribute::JsxSpreadAttribute(node) => node.syntax(),
        }
    }

    pub open spec fn spec_as_jsx_attribute(&self) -> Option<JsxAttribute<'a>> {
        match self {
            AnyJsxAttribute::JsxAttribute(node) => Some(*node),
            _ => None,
        }
    }

    /// The view as a [`JsxAttribute`], where it is one.
    #[verifier::when_used_as_spec(spec_as_jsx_attribute)]
    pub fn as_jsx_attribute(&self) -> (r: Option<JsxAttribute<'a>>)
        ensures
            r == self.spec_as_jsx_attribute(),
    {
        match self {
            AnyJsxAttribute::JsxAttribute(node) => Some(*node),
            _ => None,
        }
    }

    pub open spec fn spec_as_jsx_spread_attribute(&self) -> Option<JsxSpreadAttribute<'a>> {
        match self {
            AnyJsxAttribute::JsxSpreadAttribute(node) => Some(*node),
            _ => None,
        }
    }

    /// The view as a [`JsxSpreadAttribute`], where it is one.
    #[verifier::when_used_as_spec(spec_as_jsx_spread_attribute)]
    pub fn as_jsx_spread_attribute(&self) -> (r: Option<JsxSpreadAttribute<'a>>)
        ensures
            r == self.spec_as_jsx_spread_attribute(),
    {
        match self {
            AnyJsxAttribute::JsxSpreadAttribute(node) => Some(*node),
            _ => None,
        }
    }
}

/// The attributes of an element, in source order.
#[derive(Clone, Copy, Debug)]
pub struct JsxAttributeList<'a> {
    pub(crate) syntax: SyntaxNode<'a>,
}

impl<'a> JsxAttributeList<'a> {
    /// The view points at a node of kind [`SyntaxKind::JsxAttributeList`].
    #[verifier::type_invariant]
    pub open(crate) spec fn wf(&self) -> bool {
        self.syntax.wf() && self.syntax.kind() == SyntaxKind::JsxAttributeList
    }

    pub open(crate) spec fn spec_cast(syntax: SyntaxNode<'a>) -> Option<Self> {
        if syntax.kind() == SyntaxKind::JsxAttributeList {
            Some(JsxAttributeList { syntax })
        } else {
            None
        }
    }

    /// The typed view of `syntax`, where it has the kind of this list.
    #[verifier::when_used_as_spec(spec_cast)]
    pub fn cast(syntax: SyntaxNode<'a>) -> (r: Option<Self>)
        ensures
            r == Self::spec_cast(syntax),
    {
        proof {
            use_type_invariant(&syntax);
        }
        if syntax.kind() == SyntaxKind::JsxAttributeList {
            Some(JsxAttributeList { syntax })
        } else {
            None
        }
    }

    pub open(crate) spec fn spec_syntax(&self) -> SyntaxNode<'a> {
        self.syntax
    }

    /// The untyped node under the view.
    #[verifier::when_used_as_spec(spec_syntax)]
    pub fn syntax(&self) -> (r: SyntaxNode<'a>)
        ensures
            r == self.spec_syntax(),
    {
        self.syntax
    }

    /// The item at position `i`, for `0 <= i < self.items().len()`.
    pub open spec fn item(&self, i: int) -> AnyJsxAttribute<'a> {
        AnyJsxAttribute::cast(self.syntax().node_at(self.syntax().model().slots[i].unwrap())).unwrap()
    }

    /// The attributes in source order.
    pub open spec fn items(&self) -> Seq<AnyJsxAttribute<'a>> {
        Seq::new(self.syntax().model().slots.len(), |i: int| self.item(i))
    }

    /// The number of items.
    pub fn len(&self) -> (r: usize)
        ensures
            r == self.items().len(),
    {
        self.syntax.slot_count()
    }

    /// Every item is a node of the list's own tree, entered before the list.
    pub proof fn lemma_item(&self, i: int)
        requires
            self.wf(),
            0 <= i < self.items().len(),
        ensures
            self.items()[i].wf(),
            self.items()[i].syntax().same_tree(self.syntax()),
            self.items()[i].syntax().index() < self.syntax().index(),
            self.syntax().model().slots[i] == Some(self.items()[i].syntax().index()),
    {
        lemma_list_item(self.syntax.nodes(), self.syntax.index() as int, i);
    }

    /// No node stands at two positions of the list.
    pub proof fn lemma_items_distinct(&self, i: int, j: int)
        requires
            self.wf(),
            0 <= i < self.items().len(),
            0 <= j < self.items().len(),
            i != j,
        ensures
            self.items()[i].syntax().index() != self.items()[j].syntax().index(),
            self.items()[i] != self.items()[j],
    {
        self.lemma_item(i);
        self.lemma_item(j);
        assert(entry_ok(self.syntax.nodes(), self.syntax.index() as int));
    }

    pub open spec fn spec_get(&self, i: usize) -> Option<AnyJsxAttribute<'a>> {
        if i < self.items().len() {
            Some(self.items()[i as int])
        } else {
            None
        }
    }

    /// The item at position `i`, or nothing where the list is shorter.
    #[verifier::when_used_as_spec(spec_get)]
    pub fn get(&self, i: usize) -> (r: Option<AnyJsxAttribute<'a>>)
        ensures
            r == self.spec_get(i),
    {
        proof {
            use_type_invariant(self);
            use_type_invariant(&self.syntax);
            lemma_list_item(self.syntax.nodes(), self.syntax.index() as int, i as int);
        }
        match self.syntax.node_slot(i) {
            Some(node) => AnyJsxAttribute::cast(node),
            None => None,
        }
    }
}

/// The opening tag of an element with children: `<div class="a">`.
#[derive(Clone, Copy, Debug)]
pub struct JsxOpeningElement<'a> {
    pub(crate) syntax: SyntaxNode<'a>,
}

impl<'a> JsxOpeningElement<'a> {
    /// The view points at a node of kind [`SyntaxKind::JsxOpeningElement`].
    #[verifier::type_invariant]
    pub open(crate) spec fn wf(&self) -> bool {
        self.syntax.wf() && self.syntax.kind() == SyntaxKind::JsxOpeningElement
    }

    pub open(crate) spec fn spec_cast(syntax: SyntaxNode<'a>) -> Option<Self> {
        if syntax.kind() == SyntaxKind::JsxOpeningElement {
            Some(JsxOpeningElement { syntax })
        } else {
            None
        }
    }

    /// The typed view of `syntax`, where it has the kind of this node.
    #[verifier::when_used_as_spec(spec_cast)]
    pub fn cast(syntax: SyntaxNode<'a>) -> (r: Option<Self>)
        ensures
            r == Self::spec_cast(syntax),
    {
        proof {
            use_type_invariant(&syntax);
        }
        if syntax.kind() == SyntaxKind::JsxOpeningElement {
            Some(JsxOpeningElement { syntax })
        } else {
            None
        }
    }

    pub open(crate) spec fn spec_syntax(&self) -> SyntaxNode<'a> {
        self.syntax
    }

    /// The untyped node under the view.
    #[verifier::when_used_as_spec(spec_syntax)]
    pub fn syntax(&self) -> (r: SyntaxNode<'a>)
        ensures
            r == self.spec_syntax(),
    {
        self.syntax
    }

    pub open spec fn spec_name(&self) -> SyntaxResult<AnyJsxElementName<'a>> {
        required(
            match self.syntax().node_slot(1) {
                Some(node) => AnyJsxElementName::cast(node),
                None => None,
            },
        )
    }

    /// The name of the tag.
    #[verifier::when_used_as_spec(spec_name)]
    pub fn name(&self) -> (r: SyntaxResult<AnyJsxElementName<'a>>)
        ensures
            r == self.spec_name(),
    {
        match self.syntax.node_slot(1) {
            Some(node) => required(AnyJsxElementName::cast(node)),
            None => Err(SyntaxError::MissingRequiredChild),
        }
    }

    pub open(crate) spec fn spec_attributes(&self) -> JsxAttributeList<'a> {
        JsxAttributeList { syntax: self.syntax.list_slot(ATTRIBUTES_SLOT) }
    }

    /// The attributes of the tag.
    #[verifier::when_used_as_spec(spec_attributes)]
    pub fn attributes(&self) -> (r: JsxAttributeList<'a>)
        ensures
            r == self.spec_attributes(),
            r.syntax().same_tree(self.syntax()),
            r.syntax().index() < self.syntax().index(),
    {
        proof {
            use_type_invariant(self);
            use_type_invariant(&self.syntax);
            lemma_list_slot(self.syntax.nodes(), self.syntax.index() as int);
        }
        JsxAttributeList { syntax: self.syntax.list_slot(ATTRIBUTES_SLOT) }
    }
}

/// An element without children: `<img src="a.png" />`.
#[derive(Clone, Copy, Debug)]
pub struct JsxSelfClosingElement<'a> {
    pub(crate) syntax: SyntaxNode<'a>,
}

impl<'a> JsxSelfClosingElement<'a> {
    /// The view points at a node of kind [`SyntaxKind::JsxSelfClosingElement`].
    #[verifier::type_invariant]
    pub open(crate) spec fn wf(&self) -> bool {
        self.syntax.wf() && self.syntax.kind() == SyntaxKind::JsxSelfClosingElement
    }

    pub open(crate) spec fn spec_cast(syntax: SyntaxNode<'a>) -> Option<Self> {
        if syntax.kind() == SyntaxKind::JsxSelfClosingElement {
            Some(JsxSelfClosingElement { syntax })
        } else {
            None
        }
    }

    /// The typed view of `syntax`, where it has the kind of this node.
    #[verifier::when_used_as_spec(spec_cast)]
    pub fn cast(syntax: SyntaxNode<'a>) -> (r: Option<Self>)
        ensures
            r == Self::spec_cast(syntax),
    {
        proof {
            use_type_invariant(&syntax);
        }
        if syntax.kind() == SyntaxKind::JsxSelfClosingElement {
            Some(JsxSelfClosingElement { syntax })
        } else {
            None
        }
    }

    pub open(crate) spec fn spec_syntax(&self) -> SyntaxNode<'a> {
        self.syntax
    }

    /// The untyped node under the view.
    #[verifier::when_used_as_spec(spec_syntax)]
    pub fn syntax(&self) -> (r: SyntaxNode<'a>)
        ensures
            r == self.spec_syntax(),
    {
        self.syntax
    }

    pub open spec fn spec_name(&self) -> SyntaxResult<AnyJsxElementName<'a>> {
        required(
            match self.syntax().node_slot(1) {
                Some(node) => AnyJsxElementName::cast(node),
                None => None,
            },
        )
    }

    /// The name of the tag.
    #[verifier::when_used_as_spec(spec_name)]
    pub fn name(&self) -> (r: SyntaxResult<AnyJsxElementName<'a>>)
        ensures
            r == self.spec_name(),
    {
        match self.syntax.node_slot(1) {
            Some(node) => required(AnyJsxElementName::cast(node)),
            None => Err(SyntaxError::MissingRequiredChild),
        }
    }

    pub open(crate) spec fn spec_attributes(&self) -> JsxAttributeList<'a> {
        JsxAttributeList { syntax: self.syntax.list_slot(ATTRIBUTES_SLOT) }
    }

    /// The attributes of the tag.
    #[verifier::when_used_as_spec(spec_attributes)]
    pub fn attributes(&self) -> (r: JsxAttributeList<'a>)
        ensures
            r == self.spec_attributes(),
            r.syntax().same_tree(self.syntax()),
            r.syntax().index() < self.syntax().index(),
    {
        proof {
            use_type_invariant(self);
            use_type_invariant(&self.syntax);
            lemma_list_slot(self.syntax.nodes(), self.syntax.index() as int);
        }
        JsxAttributeList { syntax: self.syntax.list_slot(ATTRIBUTES_SLOT) }
    }
}

/// An element with an opening tag, children and a closing tag.
#[derive(Clone, Copy, Debug)]
pub struct JsxElement<'a> {
    pub(crate) syntax: SyntaxNode<'a>,
}

impl<'a> JsxElement<'a> {
    /// The view points at a node of kind [`SyntaxKind::JsxElement`].
    #[verifier::type_invariant]
    pub open(crate) spec fn wf(&self) -> bool {
        self.syntax.wf() && self.syntax.kind() == SyntaxKind::JsxElement
    }

    pub open(crate) spec fn spec_cast(syntax: SyntaxNode<'a>) -> Option<Self> {
        if syntax.kind() == SyntaxKind::JsxElement {
            Some(JsxElement { syntax })
        } else {
            None
        }
    }

    /// The typed view of `syntax`, where it has the kind of this node.
    #[verifier::when_used_as_spec(spec_cast)]
    pub fn cast(syntax: SyntaxNode<'a>) -> (r: Option<Self>)
        ensures
            r == Self::spec_cast(syntax),
    {
        proof {
            use_type_invariant(&syntax);
        }
        if syntax.kind() == SyntaxKind::JsxElement {
            Some(JsxElement { syntax })
        } else {
            None
        }
    }

    pub open(crate) spec fn spec_syntax(&self) -> SyntaxNode<'a> {
        self.syntax
    }

    /// The untyped node under the view.
    #[verifier::when_used_as_spec(spec_syntax)]
    pub fn syntax(&self) -> (r: SyntaxNode<'a>)
        ensures
            r == self.spec_syntax(),
    {
        self.syntax
    }

    pub open spec fn spec_opening_element(&self) -> SyntaxResult<JsxOpeningElement<'a>> {
        required(
            match self.syntax().node_slot(0) {
                Some(node) => JsxOpeningElement::cast(node),
                None => None,
            },
        )
    }

    /// The opening tag.
    #[verifier::when_used_as_spec(spec_opening_element)]
    pub fn opening_element(&self) -> (r: SyntaxResult<JsxOpeningElement<'a>>)
        ensures
            r == self.spec_opening_element(),
    {
        match self.syntax.node_slot(0) {
            Some(node) => required(JsxOpeningElement::cast(node)),
            None => Err(SyntaxError::MissingRequiredChild),
        }
    }

    pub open(crate) spec fn spec_children(&self) -> JsxChildList<'a> {
        JsxChildList { syntax: self.syntax.list_slot(CHILDREN_SLOT) }
    }

    /// What stands between the two tags.
    #[verifier::when_used_as_spec(spec_children)]
    pub fn children(&self) -> (r: JsxChildList<'a>)
        ensures
            r == self.spec_children(),
            r.syntax().same_tree(self.syntax()),
            r.syntax().index() < self.syntax().index(),
    {
        proof {
            use_type_invariant(self);
            use_type_invariant(&self.syntax);
            lemma_list_slot(self.syntax.nodes(), self.syntax.index() as int);
        }
        JsxChildList { syntax: self.syntax.list_slot(CHILDREN_SLOT) }
    }
}

/// A fragment: `<>...</>`.
#[derive(Clone, Copy, Debug)]
pub struct JsxFragment<'a> {
    pub(crate) syntax: SyntaxNode<'a>,
}

impl<'a> JsxFragment<'a> {
    /// The view points at a node of kind [`SyntaxKind::JsxFragment`].
    #[verifier::type_invariant]
    pub open(crate) spec fn wf(&self) -> bool {
        self.syntax.wf() && self.syntax.kind() == SyntaxKind::JsxFragment
    }

    pub open(crate) spec fn spec_cast(syntax: SyntaxNode<'a>) -> Option<Self> {
        if syntax.kind() == SyntaxKind::JsxFragment {
            Some(JsxFragment { syntax })
        } else {
            None
        }
    }

    /// The typed view of `syntax`, where it has the kind of this node.
    #[verifier::when_used_as_spec(spec_cast)]
    pub fn cast(syntax: SyntaxNode<'a>) -> (r: Option<Self>)
        ensures
            r == Self::spec_cast(syntax),
    {
        proof {
            use_type_invariant(&syntax);
        }
        if syntax.kind() == SyntaxKind::JsxFragment {
            Some(JsxFragment { syntax })
        } else {
            None
        }
    }

    pub open(crate) spec fn spec_syntax(&self) -> SyntaxNode<'a> {
        self.syntax
    }

    /// The untyped node under the view.
    #[verifier::when_used_as_spec(spec_syntax)]
    pub fn syntax(&self) -> (r: SyntaxNode<'a>)
        ensures
            r == self.spec_syntax(),
    {
        self.syntax
    }

    pub open(crate) spec fn spec_children(&self) -> JsxChildList<'a> {
        JsxChildList { syntax: self.syntax.list_slot(CHILDREN_SLOT) }
    }

    /// What stands between the two tags.
    #[verifier::when_used_as_spec(spec_children)]
    pub fn children(&self) -> (r: JsxChildList<'a>)
        ensures
            r == self.spec_children(),
            r.syntax().same_tree(self.syntax()),
            r.syntax().index() < self.syntax().index(),
    {
        proof {
            use_type_invariant(self);
            use_type_invariant(&self.syntax);
            lemma_list_slot(self.syntax.nodes(), self.syntax.index() as int);
        }
        JsxChildList { syntax: self.syntax.list_slot(CHILDREN_SLOT) }
    }
}

/// An element or a fragment.
#[derive(Clone, Copy, Debug)]
pub enum AnyJsxTag<'a> {
    JsxElement(JsxElement<'a>),
    JsxFragment(JsxFragment<'a>),
    JsxSelfClosingElement(JsxSelfClosingElement<'a>),
}

impl<'a> AnyJsxTag<'a> {
    /// The view under the variant is in order.
    pub open(crate) spec fn wf(&self) -> bool {
        match self {
            AnyJsxTag::JsxElement(node) => node.wf(),
            AnyJsxTag::JsxFragment(node) => node.wf(),
            AnyJsxTag::JsxSelfClosingElement(node) => node.wf(),
        }
    }

    pub open(crate) spec fn spec_cast(syntax: SyntaxNode<'a>) -> Option<Self> {
        match syntax.kind() {
            SyntaxKind::JsxElement => Some(AnyJsxTag::JsxElement(JsxElement { syntax })),
            SyntaxKind::JsxFragment => Some(AnyJsxTag::JsxFragment(JsxFragment { syntax })),
            SyntaxKind::JsxSelfClosingElement => Some(
                AnyJsxTag::JsxSelfClosingElement(JsxSelfClosingElement { syntax }),
            ),
            _ => None,
        }
    }

    /// The typed view of `syntax`, where it has the kind of one of the variants.
    #[verifier::when_used_as_spec(spec_cast)]
    pub fn cast(syntax: SyntaxNode<'a>) -> (r: Option<Self>)
        ensures
            r == Self::spec_cast(syntax),
    {
        proof {
            use_type_invariant(&syntax);
        }
        match syntax.kind() {
            SyntaxKind::JsxElement => Some(AnyJsxTag::JsxElement(JsxElement { syntax })),
            SyntaxKind::JsxFragment => Some(AnyJsxTag::JsxFragment(JsxFragment { syntax })),
            SyntaxKind::JsxSelfClosingElement => Some(
                AnyJsxTag::JsxSelfClosingElement(JsxSelfClosingElement { syntax }),
            ),
            _ => None,
        }
    }

    pub open spec fn spec_syntax(&self) -> SyntaxNode<'a> {
        match self {
            AnyJsxTag::JsxElement(node) => node.syntax(),
            AnyJsxTag::JsxFragment(node) => node.syntax(),
            AnyJsxTag::JsxSelfClosingElement(node) => node.syntax(),
        }
    }

    /// The untyped node under the view.
    #[verifier::when_used_as_spec(spec_syntax)]
    pub fn syntax(&self) -> (r: SyntaxNode<'a>)
        ensures
            r == self.spec_syntax(),
    {
        match self {
            AnyJsxTag::JsxElement(node) => node.syntax(),
            AnyJsxTag::JsxFragment(node) => node.syntax(),
            AnyJsxTag::JsxSelfClosingElement(node) => node.syntax(),
        }
    }
}

/// The value of an attribute.
#[derive(Clone, Copy, Debug)]
pub enum AnyJsxAttributeValue<'a> {
    JsxExpressionAttributeValue(JsxExpressionAttributeValue<'a>),
    JsxString(JsxString<'a>),
    AnyJsxTag(AnyJsxTag<'a>),
}

impl<'a> AnyJsxAttributeValue<'a> {
    /// The view under the variant is in order.
    pub open(crate) spec fn wf(&self) -> bool {
        match self {
            AnyJsxAttributeValue::JsxExpressionAttributeValue(node) => node.wf(),
            AnyJsxAttributeValue::JsxString(node) => node.wf(),
            AnyJsxAttributeValue::AnyJsxTag(node) => node.wf(),
        }
    }

    pub open(crate) spec fn spec_cast(syntax: SyntaxNode<'a>) -> Option<Self> {
        match syntax.kind() {
            SyntaxKind::JsxExpressionAttributeValue => Some(
                AnyJsxAttributeValue::JsxExpressionAttributeValue(JsxExpressionAttributeValue { syntax }),
            ),
            SyntaxKind::JsxString => Some(AnyJsxAttributeValue::JsxString(JsxString { syntax })),
            _ => match AnyJsxTag::cast(syntax) {
                Some(node) => Some(AnyJsxAttributeValue::AnyJsxTag(node)),
                None => None,
            },
        }
    }

    /// The typed view of `syntax`, where it has the kind of one of the variants.
    #[verifier::when_used_as_spec(spec_cast)]
    pub fn cast(syntax: SyntaxNode<'a>) -> (r: Option<Self>)
        ensures
            r == Self::spec_cast(syntax),
    {
        proof {
            use_type_invariant(&syntax);
        }
        match syntax.kind() {
            SyntaxKind::JsxExpressionAttributeValue => Some(
                AnyJsxAttributeValue::JsxExpressionAttributeValue(JsxExpressionAttributeValue { syntax }),
            ),
            SyntaxKind::JsxString => Some(AnyJsxAttributeValue::JsxString(JsxString { syntax })),
            _ => match AnyJsxTag::cast(syntax) {
                Some(node) => Some(AnyJsxAttributeValue::AnyJsxTag(node)),
                None => None,
            },
        }
    }

    pub open spec fn spec_syntax(&self) -> SyntaxNode<'a> {
        match self {
            AnyJsxAttributeValue::JsxExpressionAttributeValue(node) => node.syntax(),
            AnyJsxAttributeValue::JsxString(node) => node.syntax(),
            AnyJsxAttributeValue::AnyJsxTag(node) => node.syntax(),
        }
    }

    /// The untyped node under the view.
    #[verifier::when_used_as_spec(spec_syntax)]
    pub fn syntax(&self) -> (r: SyntaxNode<'a>)
        ensures
            r == self.spec_syntax(),
    {
        match self {
            AnyJsxAttributeValue::JsxExpressionAttributeValue(node) => node.syntax(),
            AnyJsxAttributeValue::JsxString(node) => node.syntax(),
            AnyJsxAttributeValue::AnyJsxTag(node) => node.syntax(),
        }
    }

    pub open spec fn spec_as_jsx_string(&self) -> Option<JsxString<'a>> {
        match self {
            AnyJsxAttributeValue::JsxString(node) => Some(*node),
            _ => None,
        }
    }

    /// The view as a [`JsxString`], where it is one.
    #[verifier::when_used_as_spec(spec_as_jsx_string)]
    pub fn as_jsx_string(&self) -> (r: Option<JsxString<'a>>)
        ensures
            r == self.spec_as_jsx_string(),
    {
        match self {
            AnyJsxAttributeValue::JsxString(node) => Some(*node),
            _ => None,
        }
    }
}

/// Raw text between tags.
#[derive(Clone, Copy, Debug)]
pub struct JsxText<'a> {
    pub(crate) syntax: SyntaxNode<'a>,
}

impl<'a> JsxText<'a> {
    /// The view points at a node of kind [`SyntaxKind::JsxText`].
    #[verifier::type_invariant]
    pub open(crate) spec fn wf(&self) -> bool {
        self.syntax.wf() && self.syntax.kind() == SyntaxKind::JsxText
    }

    pub open(crate) spec fn spec_cast(syntax: SyntaxNode<'a>) -> Option<Self> {
        if syntax.kind() == SyntaxKind::JsxText {
            Some(JsxText { syntax })
        } else {
            None
        }
    }

    /// The typed view of `syntax`, where it has the kind of this node.
    #[verifier::when_used_as_spec(spec_cast)]
    pub fn cast(syntax: SyntaxNode<'a>) -> (r: Option<Self>)
        ensures
            r == Self::spec_cast(syntax),
    {
        proof {
            use_type_invariant(&syntax);
        }
        if syntax.kind() == SyntaxKind::JsxText {
            Some(JsxText { syntax })
        } else {
            None
        }
    }

    pub open(crate) spec fn spec_syntax(&self) -> SyntaxNode<'a> {
        self.syntax
    }

    /// The untyped node under the view.
    #[verifier::when_used_as_spec(spec_syntax)]
    pub fn syntax(&self) -> (r: SyntaxNode<'a>)
        ensures
            r == self.spec_syntax(),
    {
        self.syntax
    }

    pub open spec fn spec_value_token(&self) -> SyntaxResult<JsSyntaxToken<'a>> {
        self.syntax().required_token(0, SyntaxKind::JsxTextLiteral)
    }

    /// The text.
    #[verifier::when_used_as_spec(spec_value_token)]
    pub fn value_token(&self) -> (r: SyntaxResult<JsSyntaxToken<'a>>)
        ensures
            r == self.spec_value_token(),
    {
        self.syntax.required_token(0, SyntaxKind::JsxTextLiteral)
    }
}

/// An expression in braces between tags: `{value}`.
#[derive(Clone, Copy, Debug)]
pub struct JsxExpressionChild<'a> {
    pub(crate) syntax: SyntaxNode<'a>,
}

impl<'a> JsxExpressionChild<'a> {
    /// The view points at a node of kind [`SyntaxKind::JsxExpressionChild`].
    #[verifier::type_invariant]
    pub open(crate) spec fn wf(&self) -> bool {
        self.syntax.wf() && self.syntax.kind() == SyntaxKind::JsxExpressionChild
    }

    pub open(crate) spec fn spec_cast(syntax: SyntaxNode<'a>) -> Option<Self> {
        if syntax.kind() == SyntaxKind::JsxExpressionChild {
            Some(JsxExpressionChild { syntax })
        } else {
            None
        }
    }

    /// The typed view of `syntax`, where it has the kind of this node.
    #[verifier::when_used_as_spec(spec_cast)]
    pub fn cast(syntax: SyntaxNode<'a>) -> (r: Option<Self>)
        ensures
            r == Self::spec_cast(syntax),
    {
        proof {
            use_type_invariant(&syntax);
        }
        if syntax.kind() == SyntaxKind::JsxExpressionChild {
            Some(JsxExpressionChild { syntax })
        } else {
            None
        }
    }

    pub open(crate) spec fn spec_syntax(&self) -> SyntaxNode<'a> {
        self.syntax
    }

    /// The untyped node under the view.
    #[verifier::when_used_as_spec(spec_syntax)]
    pub fn syntax(&self) -> (r: SyntaxNode<'a>)
        ensures
            r == self.spec_syntax(),
    {
        self.syntax
    }

    pub open spec fn spec_expression(&self) -> Option<AnyJsExpression<'a>> {
        match self.syntax().node_slot(1) {
            Some(node) => AnyJsExpression::cast(node),
            None => None,
        }
    }

    /// The expression between the braces; nothing for `{}`.
    #[verifier::when_used_as_spec(spec_expression)]
    pub fn expression(&self) -> (r: Option<AnyJsExpression<'a>>)
        ensures
            r == self.spec_expression(),
    {
        match self.syntax.node_slot(1) {
            Some(node) => AnyJsExpression::cast(node),
            None => None,
        }
    }
}

/// A spread between tags: `{...items}`.
#[derive(Clone, Copy, Debug)]
pub struct JsxSpreadChild<'a> {
    pub(crate) syntax: SyntaxNode<'a>,
}

impl<'a> JsxSpreadChild<'a> {
    /// The view points at a node of kind [`SyntaxKind::JsxSpreadChild`].
    #[verifier::type_invariant]
    pub open(crate) spec fn wf(&self) -> bool {
        self.syntax.wf() && self.syntax.kind() == SyntaxKind::JsxSpreadChild
    }

    pub open(crate) spec fn spec_cast(syntax: SyntaxNode<'a>) -> Option<Self> {
        if syntax.kind() == SyntaxKind::JsxSpreadChild {
            Some(JsxSpreadChild { syntax })
        } else {
            None
        }
    }

    /// The typed view of `syntax`, where it has the kind of this node.
    #[verifier::when_used_as_spec(spec_cast)]
    pub fn cast(syntax: SyntaxNode<'a>) -> (r: Option<Self>)
        ensures
            r == Self::spec_cast(syntax),
    {
        proof {
            use_type_invariant(&syntax);
        }
        if syntax.kind() == SyntaxKind::JsxSpreadChild {
            Some(JsxSpreadChild { syntax })
        } else {
            None
        }
    }

    pub open(crate) spec fn spec_syntax(&self) -> SyntaxNode<'a> {
        self.syntax
    }

    /// The untyped node under the view.
    #[verifier::when_used_as_spec(spec_syntax)]
    pub fn syntax(&self) -> (r: SyntaxNode<'a>)
        ensures
            r == self.spec_syntax(),
    {
        self.syntax
    }
}

/// What can stand between the tags of an element or a fragment.
#[derive(Clone, Copy, Debug)]
pub enum AnyJsxChild<'a> {
    JsxElement(JsxElement<'a>),
    JsxExpressionChild(JsxExpressionChild<'a>),
    JsxFragment(JsxFragment<'a>),
    JsxSelfClosingElement(JsxSelfClosingElement<'a>),
    JsxSpreadChild(JsxSpreadChild<'a>),
    JsxText(JsxText<'a>),
}

impl<'a> AnyJsxChild<'a> {
    /// The view under the variant is in order.
    pub open(crate) spec fn wf(&self) -> bool {
        match self {
            AnyJsxChild::JsxElement(node) => node.wf(),
            AnyJsxChild::JsxExpressionChild(node) => node.wf(),
            AnyJsxChild::JsxFragment(node) => node.wf(),
            AnyJsxChild::JsxSelfClosingElement(node) => node.wf(),
            AnyJsxChild::JsxSpreadChild(node) => node.wf(),
            AnyJsxChild::JsxText(node) => node.wf(),
        }
    }

    pub open(crate) spec fn spec_cast(syntax: SyntaxNode<'a>) -> Option<Self> {
        match syntax.kind() {
            SyntaxKind::JsxElement => Some(AnyJsxChild::JsxElement(JsxElement { syntax })),
            SyntaxKind::JsxExpressionChild => Some(
                AnyJsxChild::JsxExpressionChild(JsxExpressionChild { syntax }),
            ),
            SyntaxKind::JsxFragment => Some(AnyJsxChild::JsxFragment(JsxFragment { syntax })),
            SyntaxKind::JsxSelfClosingElement => Some(
                AnyJsxChild::JsxSelfClosingElement(JsxSelfClosingElement { syntax }),
            ),
            SyntaxKind::JsxSpreadChild => Some(AnyJsxChild::JsxSpreadChild(JsxSpreadChild { syntax })),
            SyntaxKind::JsxText => Some(AnyJsxChild::JsxText(JsxText { syntax })),
            _ => None,
        }
    }

    /// The typed view of `syntax`, where it has the kind of one of the variants.
    #[verifier::when_used_as_spec(spec_cast)]
    pub fn cast(syntax: SyntaxNode<'a>) -> (r: Option<Self>)
        ensures
            r == Self::spec_cast(syntax),
    {
        proof {
            use_type_invariant(&syntax);
        }
        match syntax.kind() {
            SyntaxKind::JsxElement => Some(AnyJsxChild::JsxElement(JsxElement { syntax })),
            SyntaxKind::JsxExpressionChild => Some(
                AnyJsxChild::JsxExpressionChild(JsxExpressionChild { syntax }),
            ),
            SyntaxKind::JsxFragment => Some(AnyJsxChild::JsxFragment(JsxFragment { syntax })),
            SyntaxKind::JsxSelfClosingElement => Some(
                AnyJsxChild::JsxSelfClosingElement(JsxSelfClosingElement { syntax }),
            ),
            SyntaxKind::JsxSpreadChild => Some(AnyJsxChild::JsxSpreadChild(JsxSpreadChild { syntax })),
            SyntaxKind::JsxText => Some(AnyJsxChild::JsxText(JsxText { syntax })),
            _ => None,
        }
    }

    pub open spec fn spec_syntax(&self) -> SyntaxNode<'a> {
        match self {
            AnyJsxChild::JsxElement(node) => node.syntax(),
            AnyJsxChild::JsxExpressionChild(node) => node.syntax(),
            AnyJsxChild::JsxFragment(node) => node.syntax(),
            AnyJsxChild::JsxSelfClosingElement(node) => node.syntax(),
            AnyJsxChild::JsxSpreadChild(node) => node.syntax(),
            AnyJsxChild::JsxText(node) => node.syntax(),
        }
    }

    /// The untyped node under the view.
    #[verifier::when_used_as_spec(spec_syntax)]
    pub fn syntax(&self) -> (r: SyntaxNode<'a>)
        ensures
            r == self.spec_syntax(),
    {
        match self {
            AnyJsxChild::JsxElement(node) => node.syntax(),
            AnyJsxChild::JsxExpressionChild(node) => node.syntax(),
            AnyJsxChild::JsxFragment(node) => node.syntax(),
            AnyJsxChild::JsxSelfClosingElement(node) => node.syntax(),
            AnyJsxChild::JsxSpreadChild(node) => node.syntax(),
            AnyJsxChild::JsxText(node) => node.syntax(),
        }
    }
}

/// The children of an element or a fragment, in source order.
#[derive(Clone, Copy, Debug)]
pub struct JsxChildList<'a> {
    pub(crate) syntax: SyntaxNode<'a>,
}

impl<'a> JsxChildList<'a> {
    /// The view points at a node of kind [`SyntaxKind::JsxChildList`].
    #[verifier::type_invariant]
    pub open(crate) spec fn wf(&self) -> bool {
        self.syntax.wf() && self.syntax.kind() == SyntaxKind::JsxChildList
    }

    pub open(crate) spec fn spec_cast(syntax: SyntaxNode<'a>) -> Option<Self> {
        if syntax.kind() == SyntaxKind::JsxChildList {
            Some(JsxChildList { syntax })
        } else {
            None
        }
    }

    /// The typed view of `syntax`, where it has the kind of this list.
    #[verifier::when_used_as_spec(spec_cast)]
    pub fn cast(syntax: SyntaxNode<'a>) -> (r: Option<Self>)
        ensures
            r == Self::spec_cast(syntax),
    {
        proof {
            use_type_invariant(&syntax);
        }
        if syntax.kind() == SyntaxKind::JsxChildList {
            Some(JsxChildList { syntax })
        } else {
            None
        }
    }

    pub open(crate) spec fn spec_syntax(&self) -> SyntaxNode<'a> {
        self.syntax
    }

    /// The untyped node under the view.
    #[verifier::when_used_as_spec(spec_syntax)]
    pub fn syntax(&self) -> (r: SyntaxNode<'a>)
        ensures
            r == self.spec_syntax(),
    {
        self.syntax
    }

    /// The item at position `i`, for `0 <= i < self.items().len()`.
    pub open spec fn item(&self, i: int) -> AnyJsxChild<'a> {
        AnyJsxChild::cast(self.syntax().node_at(self.syntax().model().slots[i].unwrap())).unwrap()
    }

    /// The children in source order.
    pub open spec fn items(&self) -> Seq<AnyJsxChild<'a>> {
        Seq::new(self.syntax().model().slots.len(), |i: int| self.item(i))
    }

    /// The number of items.
    pub fn len(&self) -> (r: usize)
        ensures
            r == self.items().len(),
    {
        self.syntax.slot_count()
    }

    /// Every item is a node of the list's own tree, entered before the list.
    pub proof fn lemma_item(&self, i: int)
        requires
            self.wf(),
            0 <= i < self.items().len(),
        ensures
            self.items()[i].wf(),
            self.items()[i].syntax().same_tree(self.syntax()),
            self.items()[i].syntax().index() < self.syntax().index(),
            self.syntax().model().slots[i] == Some(self.items()[i].syntax().index()),
    {
        lemma_list_item(self.syntax.nodes(), self.syntax.index() as int, i);
    }

    /// No node stands at two positions of the list.
    pub proof fn lemma_items_distinct(&self, i: int, j: int)
        requires
            self.wf(),
            0 <= i < self.items().len(),
            0 <= j < self.items().len(),
            i != j,
        ensures
            self.items()[i].syntax().index() != self.items()[j].syntax().index(),
            self.items()[i] != self.items()[j],
    {
        self.lemma_item(i);
        self.lemma_item(j);
        assert(entry_ok(self.syntax.nodes(), self.syntax.index() as int));
    }

    pub open spec fn spec_get(&self, i: usize) -> Option<AnyJsxChild<'a>> {
        if i < self.items().len() {
            Some(self.items()[i as int])
        } else {
            None
        }
    }

    /// The item at position `i`, or nothing where the list is shorter.
    #[verifier::when_used_as_spec(spec_get)]
    pub fn get(&self, i: usize) -> (r: Option<AnyJsxChild<'a>>)
        ensures
            r == self.spec_get(i),
    {
        proof {
            use_type_invariant(self);
            use_type_invariant(&self.syntax);
            lemma_list_item(self.syntax.nodes(), self.syntax.index() as int, i as int);
        }
        match self.syntax.node_slot(i) {
            Some(node) => AnyJsxChild::cast(node),
            None => None,
        }
    }
}

/// The name a declaration binds: `x` in `let x`.
#[derive(Clone, Copy, Debug)]
pub struct JsIdentifierBinding<'a> {
    pub(crate) syntax: SyntaxNode<'a>,
}

impl<'a> JsIdentifierBinding<'a> {
    /// The view points at a node of kind [`SyntaxKind::JsIdentifierBinding`].
    #[verifier::type_invariant]
    pub open(crate) spec fn wf(&self) -> bool {
        self.syntax.wf() && self.syntax.kind() == SyntaxKind::JsIdentifierBinding
    }

    pub open(crate) spec fn spec_cast(syntax: SyntaxNode<'a>) -> Option<Self> {
        if syntax.kind() == SyntaxKind::JsIdentifierBinding {
            Some(JsIdentifierBinding { syntax })
        } else {
            None
        }
    }

    /// The typed view of `syntax`, where it has the kind of this node.
    #[verifier::when_used_as_spec(spec_cast)]
    pub fn cast(syntax: SyntaxNode<'a>) -> (r: Option<Self>)
        ensures
            r == Self::spec_cast(syntax),
    {
        proof {
            use_type_invariant(&syntax);
        }
        if syntax.kind() == SyntaxKind::JsIdentifierBinding {
            Some(JsIdentifierBinding { syntax })
        } else {
            None
        }
    }

    pub open(crate) spec fn spec_syntax(&self) -> SyntaxNode<'a> {
        self.syntax
    }

    /// The untyped node under the view.
    #[verifier::when_used_as_spec(spec_syntax)]
    pub fn syntax(&self) -> (r: SyntaxNode<'a>)
        ensures
            r == self.spec_syntax(),
    {
        self.syntax
    }

    pub open spec fn spec_name_token(&self) -> SyntaxResult<JsSyntaxToken<'a>> {
        self.syntax().required_token(0, SyntaxKind::Ident)
    }

    /// The identifier that is bound.
    #[verifier::when_used_as_spec(spec_name_token)]
    pub fn name_token(&self) -> (r: SyntaxResult<JsSyntaxToken<'a>>)
        ensures
            r == self.spec_name_token(),
    {
        self.syntax.required_token(0, SyntaxKind::Ident)
    }
}

/// An expression of the host language.
#[derive(Clone, Copy, Debug)]
pub struct AnyJsExpression<'a> {
    pub(crate) syntax: SyntaxNode<'a>,
}

impl<'a> AnyJsExpression<'a> {
    /// The view points at a node of one of the expression kinds.
    #[verifier::type_invariant]
    pub open(crate) spec fn wf(&self) -> bool {
        self.syntax.wf() && self.syntax.kind().is_expression()
    }

    pub open(crate) spec fn spec_cast(syntax: SyntaxNode<'a>) -> Option<Self> {
        if syntax.kind().is_expression() {
            Some(AnyJsExpression { syntax })
        } else {
            None
        }
    }

    /// The typed view of `syntax`, where it is an expression.
    #[verifier::when_used_as_spec(spec_cast)]
    pub fn cast(syntax: SyntaxNode<'a>) -> (r: Option<Self>)
        ensures
            r == Self::spec_cast(syntax),
    {
        proof {
            use_type_invariant(&syntax);
        }
        if syntax.kind().is_expression() {
            Some(AnyJsExpression { syntax })
        } else {
            None
        }
    }

    pub open(crate) spec fn spec_syntax(&self) -> SyntaxNode<'a> {
        self.syntax
    }

    /// The untyped node under the view.
    #[verifier::when_used_as_spec(spec_syntax)]
    pub fn syntax(&self) -> (r: SyntaxNode<'a>)
        ensures
            r == self.spec_syntax(),
    {
        self.syntax
    }
}

/// In a tree, slot `i` of a list holds a node of the list's item kind.
pub proof fn lemma_list_item(nodes: Seq<NodeModel>, list: int, i: int)
    requires
        well_formed(nodes),
        0 <= list < nodes.len(),
    ensures
        nodes[list].kind == SyntaxKind::JsxAttributeList && 0 <= i < nodes[list].slots.len() ==> (
        nodes[list].slots[i] matches Some(c) && c < list && nodes[c as int].kind.is_attribute()),
        nodes[list].kind == SyntaxKind::JsxChildList && 0 <= i < nodes[list].slots.len() ==> (
        nodes[list].slots[i] matches Some(c) && c < list && nodes[c as int].kind.is_child()),
{
    assert(entry_ok(nodes, list));
}

/// In a tree, an element has its attribute list, and an element with children
/// or a fragment has its child list.
pub proof fn lemma_list_slot(nodes: Seq<NodeModel>, index: int)
    requires
        well_formed(nodes),
        0 <= index < nodes.len(),
    ensures
        nodes[index].kind == SyntaxKind::JsxOpeningElement || nodes[index].kind == SyntaxKind::JsxSelfClosingElement
            ==> {
            &&& ATTRIBUTES_SLOT < nodes[index].slots.len()
            &&& nodes[index].slots[ATTRIBUTES_SLOT as int] matches Some(c)
            &&& c < index
            &&& nodes[c as int].kind == SyntaxKind::JsxAttributeList
        },
        nodes[index].kind == SyntaxKind::JsxElement || nodes[index].kind == SyntaxKind::JsxFragment ==> {
            &&& CHILDREN_SLOT < nodes[index].slots.len()
            &&& nodes[index].slots[CHILDREN_SLOT as int] matches Some(c)
            &&& c < index
            &&& nodes[c as int].kind == SyntaxKind::JsxChildList
        },
{
    assert(entry_ok(nodes, index));
}

} // verus!
