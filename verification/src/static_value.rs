//! The values that can be read off an expression without evaluating anything.
//!
//! Only four literal forms have a static value: a string literal, `true` or
//! `false`, `null`, and the identifier `undefined`. Every other expression is
//! not statically known, and nothing is guessed about it.
use vstd::prelude::*;
use crate::kind::SyntaxKind;
use crate::nodes::AnyJsExpression;
use crate::syntax::JsSyntaxToken;
use crate::text::{strip_quotes, unquoted};
use crate::tree::entry_ok;

verus! {

impl<'a> JsSyntaxToken<'a> {
    /// The text of the token without trivia and, for a string literal, without its quotes.
    pub open spec fn spec_inner_string_text(&self) -> Seq<char> {
        if self.kind().is_string_literal() {
            unquoted(self.spec_text_trimmed())
        } else {
            self.spec_text_trimmed()
        }
    }

    /// The text of the token without trivia and, for a string literal, without its quotes.
    pub fn inner_string_text(&self) -> (r: &'a str)
        ensures
            r@ == self.spec_inner_string_text(),
    {
        proof {
            use_type_invariant(self);
            assert(entry_ok(self.nodes(), self.index() as int));
        }
        let text: &'a str = self.text_trimmed();
        if self.kind().is_string_literal() {
            strip_quotes(text)
        } else {
            text
        }
    }
}

/// A value known from the source text alone. Each variant keeps the token it was read from.
#[derive(Clone, Copy, Debug)]
pub enum StaticValue<'a> {
    /// `true` or `false`.
    Boolean(JsSyntaxToken<'a>),
    /// `null`.
    Null(JsSyntaxToken<'a>),
    /// The identifier `undefined`.
    Undefined(JsSyntaxToken<'a>),
    /// A string literal.
    String(JsSyntaxToken<'a>),
}

impl<'a> StaticValue<'a> {
    /// The token under the value is in order.
    pub open(crate) spec fn wf(&self) -> bool {
        match self {
            StaticValue::Boolean(token) => token.wf(),
            StaticValue::Null(token) => token.wf(),
            StaticValue::Undefined(token) => token.wf(),
            StaticValue::String(token) => token.wf(),
        }
    }

    /// A value is falsy when it is `false`, the empty string, `null` or `undefined`.
    pub open spec fn spec_is_falsy(&self) -> bool {
        match self {
            StaticValue::Boolean(token) => token.spec_text_trimmed() == "false"@,
            StaticValue::Null(_) => true,
            StaticValue::Undefined(_) => true,
            StaticValue::String(token) => token.spec_inner_string_text().len() == 0,
        }
    }

    /// Whether the value is `false`, the empty string, `null` or `undefined`.
    #[verifier::when_used_as_spec(spec_is_falsy)]
    pub fn is_falsy(&self) -> (r: bool)
        ensures
            r == self.spec_is_falsy(),
    {
        match self {
            StaticValue::Boolean(token) => *token.text_trimmed() == *"false",
            StaticValue::Null(_) => true,
            StaticValue::Undefined(_) => true,
            StaticValue::String(token) => token.inner_string_text().unicode_len() == 0,
        }
    }

    pub open spec fn spec_is_null_or_undefined(&self) -> bool {
        self is Null || self is Undefined
    }

    /// Whether the value is `null` or `undefined`.
    #[verifier::when_used_as_spec(spec_is_null_or_undefined)]
    pub fn is_null_or_undefined(&self) -> (r: bool)
        ensures
            r == self.spec_is_null_or_undefined(),
    {
        match self {
            StaticValue::Null(_) => true,
            StaticValue::Undefined(_) => true,
            _ => false,
        }
    }

    /// The value as text: the literal as written, a string without its quotes.
    pub open spec fn spec_text(&self) -> Seq<char> {
        match self {
            StaticValue::Boolean(token) => token.spec_text_trimmed(),
            StaticValue::Null(token) => token.spec_text_trimmed(),
            StaticValue::Undefined(_) => "undefined"@,
            StaticValue::String(token) => token.spec_inner_string_text(),
        }
    }

    /// The value as text: the literal as written, a string without its quotes.
    pub fn text(&self) -> (r: &'a str)
        ensures
            r@ == self.spec_text(),
    {
        match self {
            StaticValue::Boolean(token) => token.text_trimmed(),
            StaticValue::Null(token) => token.text_trimmed(),
            StaticValue::Undefined(_) => "undefined",
            StaticValue::String(token) => token.inner_string_text(),
        }
    }
}

/// What is `null` or `undefined` is falsy.
pub proof fn lemma_null_or_undefined_is_falsy(value: StaticValue<'_>)
    requires
        value.is_null_or_undefined(),
    ensures
        value.is_falsy(),
{
}

impl<'a> AnyJsExpression<'a> {
    /// The static value of the expression: that of a string, boolean or
    /// `null` literal whose token is there, and that of the identifier
    /// `undefined`; nothing for any other expression.
    pub open spec fn spec_as_static_value(&self) -> Option<StaticValue<'a>> {
        match self.syntax().kind() {
            SyntaxKind::JsStringLiteralExpression => match self.syntax().required_token(
                0,
                SyntaxKind::JsStringLiteral,
            ) {
                Ok(token) => Some(StaticValue::String(token)),
                Err(_) => None,
            },
            SyntaxKind::JsBooleanLiteralExpression => match self.syntax().token_slot(0) {
                Some(token) if token.kind() == SyntaxKind::TrueKw || token.kind() == SyntaxKind::FalseKw => Some(
                    StaticValue::Boolean(token),
                ),
                _ => None,
            },
            SyntaxKind::JsNullLiteralExpression => match self.syntax().required_token(0, SyntaxKind::NullKw) {
                Ok(token) => Some(StaticValue::Null(token)),
                Err(_) => None,
            },
            SyntaxKind::JsIdentifierExpression => match self.syntax().node_slot(0) {
                Some(name) if name.kind() == SyntaxKind::JsReferenceIdentifier => match name.required_token(
                    0,
                    SyntaxKind::Ident,
                ) {
                    Ok(token) if token.spec_text_trimmed() == "undefined"@ => Some(StaticValue::Undefined(token)),
                    _ => None,
                },
                _ => None,
            },
            _ => None,
        }
    }

    /// The static value of the expression, where it has one.
    #[verifier::when_used_as_spec(spec_as_static_value)]
    pub fn as_static_value(&self) -> (r: Option<StaticValue<'a>>)
        ensures
            r == self.spec_as_static_value(),
    {
        let syntax = self.syntax();
        match syntax.kind() {
            SyntaxKind::JsStringLiteralExpression => match syntax.required_token(0, SyntaxKind::JsStringLiteral) {
                Ok(token) => Some(StaticValue::String(token)),
                Err(_) => None,
            },
            SyntaxKind::JsBooleanLiteralExpression => match syntax.token_slot(0) {
                Some(token) => {
                    if token.kind() == SyntaxKind::TrueKw || token.kind() == SyntaxKind::FalseKw {
                        Some(StaticValue::Boolean(token))
                    } else {
                        None
                    }
                },
                None => None,
            },
            SyntaxKind::JsNullLiteralExpression => match syntax.required_token(0, SyntaxKind::NullKw) {
                Ok(token) => Some(StaticValue::Null(token)),
                Err(_) => None,
            },
            SyntaxKind::JsIdentifierExpression => match syntax.node_slot(0) {
                Some(name) => {
                    if name.kind() == SyntaxKind::JsReferenceIdentifier {
                        match name.required_token(0, SyntaxKind::Ident) {
                            Ok(token) => {
                                if *token.text_trimmed() == *"undefined" {
                                    Some(StaticValue::Undefined(token))
                                } else {
                                    None
                                }
                            },
                            Err(_) => None,
                        }
                    } else {
                        None
                    }
                },
                None => None,
            },
            _ => None,
        }
    }
}

} // verus!
