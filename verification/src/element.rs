//! Questions about a whole element: is it a component or a plain tag, does it
//! spread properties, what does one of its attributes say.
use vstd::prelude::*;
use crate::kind::SyntaxKind;
use crate::nodes::{
    AnyJsxAttribute, AnyJsxAttributeValue, AnyJsxElementName, AnyJsxTag, JsxAttribute, JsxAttributeList,
    JsxOpeningElement, JsxSelfClosingElement, JsxString,
};
use crate::static_value::StaticValue;
use crate::text::unquoted;
use crate::syntax::{JsSyntaxToken, SyntaxError, SyntaxNode, SyntaxResult};

verus! {

impl<'a> AnyJsxTag<'a> {
    /// The name of the tag; a fragment has none.
    pub open spec fn spec_name(&self) -> Option<AnyJsxElementName<'a>> {
        match self {
            AnyJsxTag::JsxElement(element) => match element.opening_element() {
                Ok(opening) => opening.name().ok(),
                Err(_) => None,
            },
            AnyJsxTag::JsxFragment(_) => None,
            AnyJsxTag::JsxSelfClosingElement(element) => element.name().ok(),
        }
    }

    /// The name of the tag, where the tag has one and it is there.
    #[verifier::when_used_as_spec(spec_name)]
    pub fn name(&self) -> (r: Option<AnyJsxElementName<'a>>)
        ensures
            r == self.spec_name(),
    {
        match self {
            AnyJsxTag::JsxElement(element) => match element.opening_element() {
                Ok(opening) => opening.name().ok(),
                Err(_) => None,
            },
            AnyJsxTag::JsxFragment(_) => None,
            AnyJsxTag::JsxSelfClosingElement(element) => element.name().ok(),
        }
    }

    /// The attributes of the tag; a fragment has none.
    pub open spec fn spec_attributes(&self) -> Option<JsxAttributeList<'a>> {
        match self {
            AnyJsxTag::JsxElement(element) => match element.opening_element() {
                Ok(opening) => Some(opening.attributes()),
                Err(_) => None,
            },
            AnyJsxTag::JsxFragment(_) => None,
            AnyJsxTag::JsxSelfClosingElement(element) => Some(element.attributes()),
        }
    }

    /// The attributes of the tag, where the tag can have any.
    #[verifier::when_used_as_spec(spec_attributes)]
    pub fn attributes(&self) -> (r: Option<JsxAttributeList<'a>>)
        ensures
            r == self.spec_attributes(),
    {
        match self {
            AnyJsxTag::JsxElement(element) => match element.opening_element() {
                Ok(opening) => Some(opening.attributes()),
                Err(_) => None,
            },
            AnyJsxTag::JsxFragment(_) => None,
            AnyJsxTag::JsxSelfClosingElement(element) => Some(element.attributes()),
        }
    }
}

impl<'a> JsxOpeningElement<'a> {
    /// The first attribute of the element whose name is `name_to_lookup`.
    pub fn find_attribute_by_name(&self, name_to_lookup: &str) -> (r: SyntaxResult<Option<JsxAttribute<'a>>>)
        ensures
            r == Ok::<Option<JsxAttribute<'a>>, SyntaxError>(
                self.attributes().spec_find_by_name(name_to_lookup@),
            ),
            r matches Ok(Some(attribute)) ==> attribute.syntax().same_tree(self.syntax()),
    {
        self.attributes().find_by_name(name_to_lookup)
    }

    /// Whether a spread attribute stands after `current_attribute` among the
    /// attributes of the element.
    pub fn has_trailing_spread_prop(&self, current_attribute: &JsxAttribute<'a>) -> (r: bool)
        requires
            self.syntax().same_tree(current_attribute.syntax()),
        ensures
            r == self.attributes().spec_has_trailing_spread_prop(*current_attribute),
    {
        self.attributes().has_trailing_spread_prop(current_attribute)
    }
}

impl<'a> JsxSelfClosingElement<'a> {
    /// The first attribute of the element whose name is `name_to_lookup`.
    pub fn find_attribute_by_name(&self, name_to_lookup: &str) -> (r: SyntaxResult<Option<JsxAttribute<'a>>>)
        ensures
            r == Ok::<Option<JsxAttribute<'a>>, SyntaxError>(
                self.attributes().spec_find_by_name(name_to_lookup@),
            ),
            r matches Ok(Some(attribute)) ==> attribute.syntax().same_tree(self.syntax()),
    {
        self.attributes().find_by_name(name_to_lookup)
    }

    /// Whether a spread attribute stands after `current_attribute` among the
    /// attributes of the element.
    pub fn has_trailing_spread_prop(&self, current_attribute: &JsxAttribute<'a>) -> (r: bool)
        requires
            self.syntax().same_tree(current_attribute.syntax()),
        ensures
            r == self.attributes().spec_has_trailing_spread_prop(*current_attribute),
    {
        self.attributes().has_trailing_spread_prop(current_attribute)
    }
}

/// An element seen through its tag: the opening tag of an element with children, or a self-closing element.
#[derive(Clone, Copy, Debug)]
pub enum AnyJsxElement<'a> {
    JsxOpeningElement(JsxOpeningElement<'a>),
    JsxSelfClosingElement(JsxSelfClosingElement<'a>),
}

impl<'a> AnyJsxElement<'a> {
    /// The view under the variant is in order.
    pub open(crate) spec fn wf(&self) -> bool {
        match self {
            AnyJsxElement::JsxOpeningElement(node) => node.wf(),
            AnyJsxElement::JsxSelfClosingElement(node) => node.wf(),
        }
    }

    pub open(crate) spec fn spec_cast(syntax: SyntaxNode<'a>) -> Option<Self> {
        match syntax.kind() {
            SyntaxKind::JsxOpeningElement => Some(
                AnyJsxElement::JsxOpeningElement(JsxOpeningElement { syntax }),
            ),
            SyntaxKind::JsxSelfClosingElement => Some(
                AnyJsxElement::JsxSelfClosingElement(JsxSelfClosingElement { syntax }),
            ),
            _ => None,
        }
    }

    /// The typed view of `syntax`, where it has the kind of one of the variants.
    #[verifier::when_used_as_spec(spec_cast)]
    pub fn cast(syntax: SyntaxNode<'a>) -> (r: Option<Self>)
        ensures
            r == Self::spec_cast(syntax),
    {
        proof {
            use_type_invariant(&syntax);
        }
        match syntax.kind() {
            SyntaxKind::JsxOpeningElement => Some(
                AnyJsxElement::JsxOpeningElement(JsxOpeningElement { syntax }),
            ),
            SyntaxKind::JsxSelfClosingElement => Some(
                AnyJsxElement::JsxSelfClosingElement(JsxSelfClosingElement { syntax }),
            ),
            _ => None,
        }
    }

    pub open spec fn spec_syntax(&self) -> SyntaxNode<'a> {
        match self {
            AnyJsxElement::JsxOpeningElement(node) => node.syntax(),
            AnyJsxElement::JsxSelfClosingElement(node) => node.syntax(),
        }
    }

    /// The untyped node under the view.
    #[verifier::when_used_as_spec(spec_syntax)]
    pub fn syntax(&self) -> (r: SyntaxNode<'a>)
        ensures
            r == self.spec_syntax(),
    {
        match self {
            AnyJsxElement::JsxOpeningElement(node) => node.syntax(),
            AnyJsxElement::JsxSelfClosingElement(node) => node.syntax(),
        }
    }

    /// The name of the element.
    pub open spec fn spec_name(&self) -> SyntaxResult<AnyJsxElementName<'a>> {
        match self {
            AnyJsxElement::JsxOpeningElement(element) => element.name(),
            AnyJsxElement::JsxSelfClosingElement(element) => element.name(),
        }
    }

    /// The name of the element.
    #[verifier::when_used_as_spec(spec_name)]
    pub fn name(&self) -> (r: SyntaxResult<AnyJsxElementName<'a>>)
        ensures
            r == self.spec_name(),
    {
        match self {
            AnyJsxElement::JsxOpeningElement(element) => element.name(),
            AnyJsxElement::JsxSelfClosingElement(element) => element.name(),
        }
    }

    /// The attributes of the element, in source order.
    pub open spec fn spec_attributes(&self) -> JsxAttributeList<'a> {
        match self {
            AnyJsxElement::JsxOpeningElement(element) => element.attributes(),
            AnyJsxElement::JsxSelfClosingElement(element) => element.attributes(),
        }
    }

    /// The attributes of the element, in source order.
    #[verifier::when_used_as_spec(spec_attributes)]
    pub fn attributes(&self) -> (r: JsxAttributeList<'a>)
        ensures
            r == self.spec_attributes(),
            r.syntax().same_tree(self.syntax()),
    {
        match self {
            AnyJsxElement::JsxOpeningElement(element) => element.attributes(),
            AnyJsxElement::JsxSelfClosingElement(element) => element.attributes(),
        }
    }

    /// The token that names the element.
    pub open spec fn spec_name_value_token(&self) -> Option<JsSyntaxToken<'a>> {
        match self.name() {
            Ok(name) => name.name_value_token(),
            Err(_) => None,
        }
    }

    /// The token that names the element, where it is there.
    #[verifier::when_used_as_spec(spec_name_value_token)]
    pub fn name_value_token(&self) -> (r: Option<JsSyntaxToken<'a>>)
        ensures
            r == self.spec_name_value_token(),
    {
        match self.name() {
            Ok(name) => name.name_value_token(),
            Err(_) => None,
        }
    }

    /// An element is a component when its name is there and is anything but
    /// a plain tag name: `Foo.Bar`, `ns:Foo`, or a reference such as `Foo`.
    /// It is the shape of the name that decides, not its spelling.
    pub open spec fn spec_is_custom_component(&self) -> bool {
        match self.name() {
            Ok(name) => name.as_jsx_name() is None,
            Err(_) => false,
        }
    }

    /// Whether the element is a component: `<Span />` is, `<span></span>` is not.
    #[verifier::when_used_as_spec(spec_is_custom_component)]
    pub fn is_custom_component(&self) -> (r: bool)
        ensures
            r == self.spec_is_custom_component(),
    {
        match self.name() {
            Ok(name) => name.as_jsx_name().is_none(),
            Err(_) => false,
        }
    }

    /// An element is a native element when its name is there and is a plain tag name.
    pub open spec fn spec_is_element(&self) -> bool {
        match self.name() {
            Ok(name) => name.as_jsx_name() is Some,
            Err(_) => false,
        }
    }

    /// Whether the element is a native element: `<span></span>` is, `<Span />` is not.
    #[verifier::when_used_as_spec(spec_is_element)]
    pub fn is_element(&self) -> (r: bool)
        ensures
            r == self.spec_is_element(),
    {
        match self.name() {
            Ok(name) => name.as_jsx_name().is_some(),
            Err(_) => false,
        }
    }

    /// One of the attributes is a spread.
    pub open spec fn spec_has_spread_prop(&self) -> bool {
        exists|i: int|
            0 <= i < self.attributes().items().len() && (#[trigger] self.attributes().items()[i]) is JsxSpreadAttribute
    }

    /// Whether one of the attributes of the element is a spread.
    #[verifier::when_used_as_spec(spec_has_spread_prop)]
    pub fn has_spread_prop(&self) -> (r: bool)
        ensures
            r == self.spec_has_spread_prop(),
    {
        let attributes = self.attributes();
        let n: usize = attributes.len();
        let mut i: usize = 0;
        while i < n
            invariant
                attributes == self.attributes(),
                n == attributes.items().len(),
                i <= n,
                forall|j: int| 0 <= j < i ==> !(#[trigger] attributes.items()[j] is JsxSpreadAttribute),
            decreases n - i,
        {
            if let Some(AnyJsxAttribute::JsxSpreadAttribute(_)) = attributes.get(i) {
                return true;
            }
            i += 1;
        }
        false
    }

    /// A spread attribute stands after `attribute` among the attributes of the element.
    pub open spec fn spec_has_trailing_spread_prop(&self, attribute: JsxAttribute<'a>) -> bool {
        self.attributes().spec_has_trailing_spread_prop(attribute)
    }

    /// Whether a spread attribute stands after `current_attribute` among the
    /// attributes of the element.
    pub fn has_trailing_spread_prop(&self, current_attribute: &JsxAttribute<'a>) -> (r: bool)
        requires
            self.syntax().same_tree(current_attribute.syntax()),
        ensures
            r == self.spec_has_trailing_spread_prop(*current_attribute),
    {
        match self {
            AnyJsxElement::JsxSelfClosingElement(element) => element.has_trailing_spread_prop(current_attribute),
            AnyJsxElement::JsxOpeningElement(element) => element.has_trailing_spread_prop(current_attribute),
        }
    }

    /// The first attribute of the element named `name`.
    pub open spec fn spec_find_attribute_by_name(&self, name: Seq<char>) -> Option<JsxAttribute<'a>> {
        self.attributes().spec_find_by_name(name)
    }

    /// The first attribute of the element whose name is `name_to_lookup`, or
    /// nothing where no attribute has that name.
    pub fn find_attribute_by_name(&self, name_to_lookup: &str) -> (r: Option<JsxAttribute<'a>>)
        ensures
            r == self.spec_find_attribute_by_name(name_to_lookup@),
            r matches Some(attribute) ==> attribute.syntax().same_tree(self.syntax()),
    {
        let found = match self {
            AnyJsxElement::JsxSelfClosingElement(element) => element.find_attribute_by_name(name_to_lookup),
            AnyJsxElement::JsxOpeningElement(element) => element.find_attribute_by_name(name_to_lookup),
        };
        match found {
            Ok(attribute) => attribute,
            Err(_) => None,
        }
    }

    /// The text of the attribute named `name` where its value is a string
    /// literal: the string without its quotes. Nothing where the attribute is
    /// absent, has no value, or has a value of another shape.
    pub open spec fn spec_get_attribute_inner_string_text(&self, name: Seq<char>) -> Option<Seq<char>> {
        match self.spec_find_attribute_by_name(name) {
            Some(attribute) => match attribute.initializer() {
                Some(initializer) => match initializer.value() {
                    Ok(AnyJsxAttributeValue::JsxString(string)) => match string.spec_inner_string_text() {
                        Ok(text) => Some(text),
                        Err(_) => None,
                    },
                    _ => None,
                },
                None => None,
            },
            None => None,
        }
    }

    /// The unquoted text of the attribute named `name_to_lookup`, where its
    /// value is a string literal.
    pub fn get_attribute_inner_string_text(&self, name_to_lookup: &str) -> (r: Option<String>)
        ensures
            match r {
                Some(text) => self.spec_get_attribute_inner_string_text(name_to_lookup@) == Some(text@),
                None => self.spec_get_attribute_inner_string_text(name_to_lookup@) is None,
            },
    {
        match self.find_attribute_by_name(name_to_lookup) {
            Some(attribute) => match attribute.initializer() {
                Some(initializer) => match initializer.value() {
                    Ok(AnyJsxAttributeValue::JsxString(string)) => match string.inner_string_text() {
                        Ok(text) => Some(text.to_owned()),
                        Err(_) => None,
                    },
                    _ => None,
                },
                None => None,
            },
            None => None,
        }
    }

    /// What an attribute says when taken as a condition: it counts as true
    /// unless its value is statically known and is falsy or reads `false`.
    pub open spec fn reads_as_truthy(attribute: JsxAttribute<'a>) -> bool {
        match attribute.as_static_value() {
            Some(value) => !(value.is_falsy() || value.spec_text() == "false"@),
            None => true,
        }
    }

    /// The element has an attribute named `name` that is reliably truthy: the
    /// first attribute of that name is not known to be falsy, and no spread
    /// attribute after it can override it.
    pub open spec fn spec_has_truthy_attribute(&self, name: Seq<char>) -> bool {
        match self.spec_find_attribute_by_name(name) {
            Some(attribute) => Self::reads_as_truthy(attribute) && !self.spec_has_trailing_spread_prop(attribute),
            None => false,
        }
    }

    /// Whether the element has an attribute named `name_to_lookup` that is reliably truthy.
    pub fn has_truthy_attribute(&self, name_to_lookup: &str) -> (r: bool)
        ensures
            r == self.spec_has_truthy_attribute(name_to_lookup@),
    {
        match self.find_attribute_by_name(name_to_lookup) {
            Some(attribute) => {
                let truthy: bool = match attribute.as_static_value() {
                    Some(value) => !(value.is_falsy() || *value.text() == *"false"),
                    None => true,
                };
                truthy && !self.has_trailing_spread_prop(&attribute)
            },
            None => false,
        }
    }

    /// It is the shape of the name that makes a component: an element is a
    /// component exactly when its name is a member name, a name with a
    /// namespace or a reference, and a native element exactly when its name
    /// is a plain tag name. Where the name is there, it is one or the other.
    pub proof fn lemma_component_by_shape(&self)
        ensures
            self.spec_is_custom_component() <==> (self.name() matches Ok(name) && (name is JsxMemberName
                || name is JsxNamespaceName || name is JsxReferenceIdentifier)),
            self.spec_is_element() <==> (self.name() matches Ok(name) && name is JsxName),
            self.name() is Ok ==> (self.spec_is_element() <==> !self.spec_is_custom_component()),
    {
    }

    /// The text of an attribute is the text of its string literal without
    /// the quotes: where the first attribute named `name` has the string
    /// `string` as its value and `token` is its literal, the answer is the
    /// text of `token` between its quotes.
    pub proof fn lemma_string_attribute_text(
        &self,
        name: Seq<char>,
        attribute: JsxAttribute<'a>,
        string: JsxString<'a>,
        token: JsSyntaxToken<'a>,
    )
        requires
            self.spec_find_attribute_by_name(name) == Some(attribute),
            attribute.initializer() matches Some(initializer) && initializer.value() == Ok::<
                AnyJsxAttributeValue<'a>,
                SyntaxError,
            >(AnyJsxAttributeValue::JsxString(string)),
            string.value_token() == Ok::<JsSyntaxToken<'a>, SyntaxError>(token),
        ensures
            self.spec_get_attribute_inner_string_text(name) == Some(unquoted(token.spec_text_trimmed())),
    {
    }

    /// An attribute has no text where it is absent, where it has no value,
    /// and where its value is an expression or an element.
    pub proof fn lemma_no_string_attribute_text(&self, name: Seq<char>)
        ensures
            self.spec_find_attribute_by_name(name) is None ==> self.spec_get_attribute_inner_string_text(name) is None,
            self.spec_find_attribute_by_name(name) matches Some(attribute) && attribute.initializer() is None
                ==> self.spec_get_attribute_inner_string_text(name) is None,
            self.spec_find_attribute_by_name(name) matches Some(attribute) && attribute.initializer() matches Some(
                initializer,
            ) && !(initializer.value() matches Ok(AnyJsxAttributeValue::JsxString(_)))
                ==> self.spec_get_attribute_inner_string_text(name) is None,
    {
    }

    /// An element without a spread attribute has no trailing spread after
    /// any of its attributes.
    pub proof fn lemma_no_spread_nothing_trails(&self, attribute: JsxAttribute<'a>)
        requires
            !self.spec_has_spread_prop(),
        ensures
            !self.spec_has_trailing_spread_prop(attribute),
    {
    }

    /// An attribute is reliably truthy only where it is there, is not known
    /// to be falsy, and has no spread after it.
    pub proof fn lemma_truthy_attribute_is_reliable(&self, name: Seq<char>)
        requires
            self.spec_has_truthy_attribute(name),
        ensures
            self.spec_find_attribute_by_name(name) matches Some(attribute) && {
                &&& attribute.as_static_value() matches Some(value) ==> !value.is_falsy()
                &&& !self.spec_has_trailing_spread_prop(attribute)
            },
    {
    }

    /// An attribute that a later spread can override is never reliably
    /// truthy, whatever its own value is.
    pub proof fn lemma_trailing_spread_defeats_truthy(&self, name: Seq<char>)
        requires
            self.spec_find_attribute_by_name(name) matches Some(attribute) && self.spec_has_trailing_spread_prop(
                attribute,
            ),
        ensures
            !self.spec_has_truthy_attribute(name),
    {
    }

    /// An attribute without a value, such as `hidden` in `<div hidden>`, is
    /// reliably truthy where no spread follows it.
    pub proof fn lemma_shorthand_is_truthy(&self, name: Seq<char>)
        requires
            self.spec_find_attribute_by_name(name) matches Some(attribute) && attribute.initializer() is None
                && !self.spec_has_trailing_spread_prop(attribute),
        ensures
            self.spec_has_truthy_attribute(name),
    {
    }

    /// An attribute whose value is a string that reads `false`, as in
    /// `aria-hidden="false"`, is not truthy.
    pub proof fn lemma_false_string_is_not_truthy(&self, name: Seq<char>, token: JsSyntaxToken<'a>)
        requires
            self.spec_find_attribute_by_name(name) matches Some(attribute) && attribute.as_static_value() == Some(
                StaticValue::String(token),
            ),
            token.spec_inner_string_text() == "false"@,
        ensures
            !self.spec_has_truthy_attribute(name),
    {
    }
}

} // verus!
