//! Whether a piece of content can be reached by assistive technology.
//!
//! The answer leans towards "accessible": whatever cannot be decided from the
//! source alone counts as accessible, so that nothing is reported as hidden
//! that may well be visible. Only a native element with a reliably truthy
//! `aria-hidden`, blank text, and an expression that is statically falsy are
//! inaccessible.
use vstd::prelude::*;
use crate::element::AnyJsxElement;
use crate::nodes::{lemma_list_slot, AnyJsxChild, JsxChildList, JsxElement, JsxFragment, JsxOpeningElement};
use crate::text::{blank, is_blank};

verus! {

/// An element hides itself from assistive technology only where it is a
/// native element with a reliably truthy `aria-hidden`. A component is
/// opaque: what it does with the attribute is not known, so it counts as shown.
pub open spec fn is_shown(element: AnyJsxElement<'_>) -> bool {
    element.is_custom_component() || !element.spec_has_truthy_attribute("aria-hidden"@)
}

/// Whether `element` counts as shown to assistive technology.
fn shown(element: &AnyJsxElement<'_>) -> (r: bool)
    ensures
        r == is_shown(*element),
{
    element.is_custom_component() || !element.has_truthy_attribute("aria-hidden")
}

impl<'a> AnyJsxChild<'a> {
    /// Whether the child is accessible; nothing where a piece that the grammar
    /// requires, and that the answer depends on, is missing from the tree:
    /// the token of a text, the opening tag of an element.
    ///
    /// - Text is accessible unless it is blank.
    /// - An expression in braces is accessible unless the expression is
    ///   statically falsy. Braces with nothing in them, `{}`, are in order and
    ///   hold nothing that is falsy, so they are accessible too.
    /// - An element is accessible where [`is_shown`] holds of it.
    /// - A fragment is accessible where one of its children is, a child
    ///   without an answer counting as accessible. The children of a fragment
    ///   stand before it in the tree, which is what the recursion descends on.
    /// - Anything else is accessible.
    pub open spec fn spec_is_accessible_node(&self) -> Option<bool>
        decreases self.syntax().index(),
    {
        match self {
            AnyJsxChild::JsxText(text) => match text.value_token() {
                Ok(token) => Some(!is_blank(token.spec_text_trimmed())),
                Err(_) => None,
            },
            AnyJsxChild::JsxExpressionChild(child) => Some(
                match child.expression() {
                    Some(expression) => match expression.as_static_value() {
                        Some(value) => !value.is_falsy(),
                        None => true,
                    },
                    None => true,
                },
            ),
            AnyJsxChild::JsxElement(element) => match element.opening_element() {
                Ok(opening) => Some(is_shown(AnyJsxElement::JsxOpeningElement(opening))),
                Err(_) => None,
            },
            AnyJsxChild::JsxSelfClosingElement(element) => Some(
                is_shown(AnyJsxElement::JsxSelfClosingElement(*element)),
            ),
            AnyJsxChild::JsxFragment(fragment) => Some(
                exists|i: int|
                    {
                        let child = #[trigger] fragment.children().items()[i];
                        &&& 0 <= i < fragment.children().items().len()
                        &&& child.syntax().index() < self.syntax().index()
                        &&& match child.spec_is_accessible_node() {
                            Some(accessible) => accessible,
                            None => true,
                        }
                    },
            ),
            AnyJsxChild::JsxSpreadChild(_) => Some(true),
        }
    }

    /// The child is accessible, or it cannot be told.
    pub open spec fn is_accessible_or_unknown(&self) -> bool {
        match self.spec_is_accessible_node() {
            Some(accessible) => accessible,
            None => true,
        }
    }

    /// Whether the child is accessible to assistive technology; nothing where
    /// the tree lacks a piece that the answer depends on.
    pub fn is_accessible_node(&self) -> (r: Option<bool>)
        ensures
            r == self.spec_is_accessible_node(),
        decreases self.syntax().index(),
    {
        match self {
            AnyJsxChild::JsxText(text) => match text.value_token() {
                Ok(token) => Some(!blank(token.text_trimmed())),
                Err(_) => None,
            },
            AnyJsxChild::JsxExpressionChild(child) => Some(
                match child.expression() {
                    Some(expression) => match expression.as_static_value() {
                        Some(value) => !value.is_falsy(),
                        None => true,
                    },
                    None => true,
                },
            ),
            AnyJsxChild::JsxElement(element) => match element.opening_element() {
                Ok(opening) => Some(shown(&AnyJsxElement::JsxOpeningElement(opening))),
                Err(_) => None,
            },
            AnyJsxChild::JsxSelfClosingElement(element) => Some(
                shown(&AnyJsxElement::JsxSelfClosingElement(*element)),
            ),
            AnyJsxChild::JsxFragment(fragment) => {
                let children = fragment.children();
                proof {
                    use_type_invariant(&children);
                }
                let n: usize = children.len();
                let mut i: usize = 0;
                while i < n
                    invariant
                        children == fragment.children(),
                        children.wf(),
                        children.syntax().index() < fragment.syntax().index(),
                        *self == AnyJsxChild::JsxFragment(*fragment),
                        n == children.items().len(),
                        i <= n,
                        forall|j: int| 0 <= j < i ==> !(#[trigger] children.items()[j]).is_accessible_or_unknown(),
                    decreases n - i,
                {
                    if let Some(child) = children.get(i) {
                        proof {
                            children.lemma_item(i as int);
                        }
                        let accessible: bool = match child.is_accessible_node() {
                            Some(accessible) => accessible,
                            None => true,
                        };
                        if accessible {
                            return Some(true);
                        }
                    }
                    i += 1;
                }
                proof {
                    assert forall|j: int| 0 <= j < children.items().len() implies !({
                        let child = #[trigger] children.items()[j];
                        &&& child.syntax().index() < self.syntax().index()
                        &&& child.is_accessible_or_unknown()
                    }) by {}
                }
                Some(false)
            },
            AnyJsxChild::JsxSpreadChild(_) => Some(true),
        }
    }
}

impl<'a> JsxChildList<'a> {
    /// One of the children is accessible, a child without an answer counting as accessible.
    pub open spec fn spec_has_accessible_child(&self) -> bool {
        exists|i: int| 0 <= i < self.items().len() && (#[trigger] self.items()[i]).is_accessible_or_unknown()
    }

    /// Whether one of the children is accessible, a child without an answer
    /// counting as accessible.
    #[verifier::when_used_as_spec(spec_has_accessible_child)]
    pub fn has_accessible_child(&self) -> (r: bool)
        ensures
            r == self.spec_has_accessible_child(),
    {
        let n: usize = self.len();
        let mut i: usize = 0;
        while i < n
            invariant
                n == self.items().len(),
                i <= n,
                forall|j: int| 0 <= j < i ==> !(#[trigger] self.items()[j]).is_accessible_or_unknown(),
            decreases n - i,
        {
            if let Some(child) = self.get(i) {
                let accessible: bool = match child.is_accessible_node() {
                    Some(accessible) => accessible,
                    None => true,
                };
                if accessible {
                    return true;
                }
            }
            i += 1;
        }
        false
    }
}

/// Among elements, only a native element with a reliably truthy `aria-hidden`
/// is hidden: an element is shown unless its name is a plain tag name or is
/// missing, and `aria-hidden` is reliably truthy on it.
pub proof fn lemma_only_native_elements_hide(element: AnyJsxElement<'_>)
    ensures
        !is_shown(element) <==> !element.is_custom_component() && element.spec_has_truthy_attribute(
            "aria-hidden"@,
        ),
        element.is_custom_component() ==> is_shown(element),
{
}

impl<'a> JsxFragment<'a> {
    /// A fragment is accessible exactly when one of its children is, a child
    /// without an answer counting as accessible.
    pub proof fn lemma_accessible_by_children(&self)
        requires
            self.wf(),
        ensures
            AnyJsxChild::JsxFragment(*self).spec_is_accessible_node() == Some(
                self.children().spec_has_accessible_child(),
            ),
    {
        let children = self.children();
        lemma_list_slot(self.syntax().nodes(), self.syntax().index() as int);
        assert(children.wf());
        assert forall|i: int| 0 <= i < children.items().len() implies (#[trigger] children.items()[i]).syntax().index()
            < self.syntax().index() by {
            children.lemma_item(i);
        }
    }
}

impl<'a> JsxOpeningElement<'a> {
    /// The element whose opening tag this is has an accessible child. An
    /// opening tag that does not stand in an element has none.
    pub open spec fn spec_has_accessible_child(&self) -> bool {
        match self.syntax().parent() {
            Some(parent) => match JsxElement::cast(parent) {
                Some(element) => element.children().has_accessible_child(),
                None => false,
            },
            None => false,
        }
    }

    /// Whether the element that this tag opens has a child that is accessible.
    #[verifier::when_used_as_spec(spec_has_accessible_child)]
    pub fn has_accessible_child(&self) -> (r: bool)
        ensures
            r == self.spec_has_accessible_child(),
    {
        match self.syntax().parent() {
            Some(parent) => match JsxElement::cast(parent) {
                Some(element) => element.children().has_accessible_child(),
                None => false,
            },
            None => false,
        }
    }
}

} // verus!
