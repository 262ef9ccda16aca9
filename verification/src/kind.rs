//! The kinds of tokens and nodes a JSX syntax tree is made of.
use vstd::prelude::*;

verus! {

/// The tag every token and node of the tree carries.
///
/// Only the shapes that the JSX queries look at have a kind of their own;
/// everything else the parser may produce is covered by [`SyntaxKind::OtherToken`],
/// [`SyntaxKind::JsOtherExpression`], [`SyntaxKind::OtherNode`] and [`SyntaxKind::Bogus`].
#[derive(Clone, Copy, PartialEq, Eq, Debug, Structural)]
pub enum SyntaxKind {
    // Tokens
    /// `<`
    LAngle,
    /// `>`
    RAngle,
    /// `/`
    Slash,
    /// `=`
    Eq,
    /// `{`
    LCurly,
    /// `}`
    RCurly,
    /// `...`
    DotDotDot,
    /// `:`
    Colon,
    /// `.`
    Dot,
    /// An identifier of the host language.
    Ident,
    /// An identifier inside a tag, which may contain `-`.
    JsxIdent,
    /// A quoted string in an expression.
    JsStringLiteral,
    /// A quoted string as an attribute value.
    JsxStringLiteral,
    /// The raw text between tags.
    JsxTextLiteral,
    /// `true`
    TrueKw,
    /// `false`
    FalseKw,
    /// `null`
    NullKw,
    /// Any other token.
    OtherToken,
    // Nodes
    /// An element with children: `<div>...</div>`.
    JsxElement,
    /// The opening tag of an element with children: `<div>`.
    JsxOpeningElement,
    /// The closing tag of an element with children: `</div>`.
    JsxClosingElement,
    /// An element without children: `<img />`.
    JsxSelfClosingElement,
    /// A fragment: `<>...</>`.
    JsxFragment,
    /// The opening tag of a fragment: `<>`.
    JsxOpeningFragment,
    /// The closing tag of a fragment: `</>`.
    JsxClosingFragment,
    /// What stands between two tags.
    JsxChildList,
    /// Raw text between tags.
    JsxText,
    /// An expression in braces between tags: `{value}`.
    JsxExpressionChild,
    /// A spread between tags: `{...items}`.
    JsxSpreadChild,
    /// The attributes of a tag.
    JsxAttributeList,
    /// An attribute with a name: `id="a"`.
    JsxAttribute,
    /// A spread attribute: `{...props}`.
    JsxSpreadAttribute,
    /// The `=value` part of an attribute.
    JsxAttributeInitializerClause,
    /// A quoted string as the value of an attribute.
    JsxString,
    /// An expression in braces as the value of an attribute.
    JsxExpressionAttributeValue,
    /// A plain name of a tag or an attribute: `div`.
    JsxName,
    /// A name with a namespace: `ns:name`.
    JsxNamespaceName,
    /// A tag name that selects a member: `Foo.Bar`.
    JsxMemberName,
    /// A tag name that refers to a binding: `Foo`.
    JsxReferenceIdentifier,
    /// A name of the host language, as after the dot in `Foo.Bar`.
    JsName,
    /// A string literal: `'a'`.
    JsStringLiteralExpression,
    /// `true` or `false` as an expression.
    JsBooleanLiteralExpression,
    /// `null` as an expression.
    JsNullLiteralExpression,
    /// An identifier used as an expression: `cond`.
    JsIdentifierExpression,
    /// The identifier of an identifier expression.
    JsReferenceIdentifier,
    /// The name a declaration binds: `x` in `let x`.
    JsIdentifierBinding,
    /// Any expression that is not one of the literal forms above.
    JsOtherExpression,
    /// Any other node.
    OtherNode,
    /// What the parser leaves where it could not make sense of the source.
    Bogus,
}

impl SyntaxKind {
    /// Tokens are the leaves of the tree: they carry text and have no children.
    pub open spec fn spec_is_token(self) -> bool {
        match self {
            SyntaxKind::LAngle
            | SyntaxKind::RAngle
            | SyntaxKind::Slash
            | SyntaxKind::Eq
            | SyntaxKind::LCurly
            | SyntaxKind::RCurly
            | SyntaxKind::DotDotDot
            | SyntaxKind::Colon
            | SyntaxKind::Dot
            | SyntaxKind::Ident
            | SyntaxKind::JsxIdent
            | SyntaxKind::JsStringLiteral
            | SyntaxKind::JsxStringLiteral
            | SyntaxKind::JsxTextLiteral
            | SyntaxKind::TrueKw
            | SyntaxKind::FalseKw
            | SyntaxKind::NullKw
            | SyntaxKind::OtherToken => true,
            _ => false,
        }
    }

    /// The tokens whose text is a string between two quotes.
    pub open spec fn spec_is_string_literal(self) -> bool {
        self == SyntaxKind::JsStringLiteral || self == SyntaxKind::JsxStringLiteral
    }

    /// The kinds an entry of an attribute list can have.
    pub open spec fn spec_is_attribute(self) -> bool {
        self == SyntaxKind::JsxAttribute || self == SyntaxKind::JsxSpreadAttribute
    }

    /// The kinds an entry of a child list can have.
    pub open spec fn spec_is_child(self) -> bool {
        match self {
            SyntaxKind::JsxText
            | SyntaxKind::JsxExpressionChild
            | SyntaxKind::JsxSpreadChild
            | SyntaxKind::JsxElement
            | SyntaxKind::JsxSelfClosingElement
            | SyntaxKind::JsxFragment => true,
            _ => false,
        }
    }

    /// The kinds that stand for an expression of the host language.
    pub open spec fn spec_is_expression(self) -> bool {
        match self {
            SyntaxKind::JsStringLiteralExpression
            | SyntaxKind::JsBooleanLiteralExpression
            | SyntaxKind::JsNullLiteralExpression
            | SyntaxKind::JsIdentifierExpression
            | SyntaxKind::JsOtherExpression => true,
            _ => false,
        }
    }

    #[verifier::when_used_as_spec(spec_is_token)]
    pub fn is_token(self) -> (r: bool)
        ensures
            r == self.spec_is_token(),
    {
        match self {
            SyntaxKind::LAngle
            | SyntaxKind::RAngle
            | SyntaxKind::Slash
            | SyntaxKind::Eq
            | SyntaxKind::LCurly
            | SyntaxKind::RCurly
            | SyntaxKind::DotDotDot
            | SyntaxKind::Colon
            | SyntaxKind::Dot
            | SyntaxKind::Ident
            | SyntaxKind::JsxIdent
            | SyntaxKind::JsStringLiteral
            | SyntaxKind::JsxStringLiteral
            | SyntaxKind::JsxTextLiteral
            | SyntaxKind::TrueKw
            | SyntaxKind::FalseKw
            | SyntaxKind::NullKw
            | SyntaxKind::OtherToken => true,
            _ => false,
        }
    }

    #[verifier::when_used_as_spec(spec_is_string_literal)]
    pub fn is_string_literal(self) -> (r: bool)
        ensures
            r == self.spec_is_string_literal(),
    {
        self == SyntaxKind::JsStringLiteral || self == SyntaxKind::JsxStringLiteral
    }

    #[verifier::when_used_as_spec(spec_is_attribute)]
    pub fn is_attribute(self) -> (r: bool)
        ensures
            r == self.spec_is_attribute(),
    {
        self == SyntaxKind::JsxAttribute || self == SyntaxKind::JsxSpreadAttribute
    }

    #[verifier::when_used_as_spec(spec_is_child)]
    pub fn is_child(self) -> (r: bool)
        ensures
            r == self.spec_is_child(),
    {
        match self {
            SyntaxKind::JsxText
            | SyntaxKind::JsxExpressionChild
            | SyntaxKind::JsxSpreadChild
            | SyntaxKind::JsxElement
            | SyntaxKind::JsxSelfClosingElement
            | SyntaxKind::JsxFragment => true,
            _ => false,
        }
    }

    #[verifier::when_used_as_spec(spec_is_expression)]
    pub fn is_expression(self) -> (r: bool)
        ensures
            r == self.spec_is_expression(),
    {
        match self {
            SyntaxKind::JsStringLiteralExpression
            | SyntaxKind::JsBooleanLiteralExpression
            | SyntaxKind::JsNullLiteralExpression
            | SyntaxKind::JsIdentifierExpression
            | SyntaxKind::JsOtherExpression => true,
            _ => false,
        }
    }
}

} // verus!
