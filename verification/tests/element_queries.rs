use jsx_syntax::element::AnyJsxElement;
use jsx_syntax::kind::SyntaxKind;
use jsx_syntax::nodes::{AnyJsxElementName, AnyJsxTag, JsxAttribute, JsxOpeningElement, JsxSelfClosingElement};
use jsx_syntax::syntax::{SyntaxError, SyntaxTree};
use jsx_syntax::text::TextRange;
use jsx_syntax::tree::TreeBuilder;

/// Builds the tree of a piece of source bottom-up, handing out ranges as it goes.
struct Jsx {
    builder: TreeBuilder,
    at: u32,
}

#[allow(dead_code)]
impl Jsx {
    fn new() -> Self {
        Jsx { builder: TreeBuilder::new(), at: 0 }
    }

    fn token(&mut self, kind: SyntaxKind, text: &str) -> usize {
        let start = self.at;
        self.at += text.len() as u32;
        self.builder.token(kind, "", text, "", TextRange::new(start, self.at)).expect("a token")
    }

    fn node(&mut self, kind: SyntaxKind, slots: Vec<Option<usize>>) -> usize {
        self.builder.node(kind, slots, TextRange::new(0, self.at)).expect("a node")
    }

    fn name(&mut self, text: &str) -> usize {
        let ident = self.token(SyntaxKind::JsxIdent, text);
        self.node(SyntaxKind::JsxName, vec![Some(ident)])
    }

    fn reference(&mut self, text: &str) -> usize {
        let ident = self.token(SyntaxKind::JsxIdent, text);
        self.node(SyntaxKind::JsxReferenceIdentifier, vec![Some(ident)])
    }

    fn member_name(&mut self, object: &str, member: &str) -> usize {
        let object = self.reference(object);
        let dot = self.token(SyntaxKind::Dot, ".");
        let ident = self.token(SyntaxKind::Ident, member);
        let member = self.node(SyntaxKind::JsName, vec![Some(ident)]);
        self.node(SyntaxKind::JsxMemberName, vec![Some(object), Some(dot), Some(member)])
    }

    fn namespace_name(&mut self, namespace: &str, name: &str) -> usize {
        let namespace = self.name(namespace);
        let colon = self.token(SyntaxKind::Colon, ":");
        let name = self.name(name);
        self.node(SyntaxKind::JsxNamespaceName, vec![Some(namespace), Some(colon), Some(name)])
    }

    fn string(&mut self, literal: &str) -> usize {
        let token = self.token(SyntaxKind::JsxStringLiteral, literal);
        self.node(SyntaxKind::JsxString, vec![Some(token)])
    }

    fn string_expression(&mut self, literal: &str) -> usize {
        let token = self.token(SyntaxKind::JsStringLiteral, literal);
        self.node(SyntaxKind::JsStringLiteralExpression, vec![Some(token)])
    }

    fn boolean(&mut self, value: bool) -> usize {
        let token = if value {
            self.token(SyntaxKind::TrueKw, "true")
        } else {
            self.token(SyntaxKind::FalseKw, "false")
        };
        self.node(SyntaxKind::JsBooleanLiteralExpression, vec![Some(token)])
    }

    fn null(&mut self) -> usize {
        let token = self.token(SyntaxKind::NullKw, "null");
        self.node(SyntaxKind::JsNullLiteralExpression, vec![Some(token)])
    }

    fn identifier(&mut self, name: &str) -> usize {
        let token = self.token(SyntaxKind::Ident, name);
        let reference = self.node(SyntaxKind::JsReferenceIdentifier, vec![Some(token)]);
        self.node(SyntaxKind::JsIdentifierExpression, vec![Some(reference)])
    }

    fn other_expression(&mut self) -> usize {
        let token = self.token(SyntaxKind::OtherToken, "f()");
        self.node(SyntaxKind::JsOtherExpression, vec![Some(token)])
    }

    fn braces(&mut self, expression: Option<usize>) -> usize {
        let open = self.token(SyntaxKind::LCurly, "{");
        let close = self.token(SyntaxKind::RCurly, "}");
        self.node(SyntaxKind::JsxExpressionAttributeValue, vec![Some(open), expression, Some(close)])
    }

    fn attribute(&mut self, name: Option<usize>, value: Option<usize>) -> usize {
        let initializer = match value {
            Some(value) => {
                let eq = self.token(SyntaxKind::Eq, "=");
                Some(self.node(SyntaxKind::JsxAttributeInitializerClause, vec![Some(eq), Some(value)]))
            }
            None => None,
        };
        self.node(SyntaxKind::JsxAttribute, vec![name, initializer])
    }

    /// `name`, or `name=value` where `value` is the node of the value.
    fn named(&mut self, name: &str, value: Option<usize>) -> usize {
        let name = self.name(name);
        self.attribute(Some(name), value)
    }

    /// `name="text"`
    fn named_string(&mut self, name: &str, literal: &str) -> usize {
        let value = self.string(literal);
        self.named(name, Some(value))
    }

    /// `name={expression}`
    fn named_expression(&mut self, name: &str, expression: usize) -> usize {
        let value = self.braces(Some(expression));
        self.named(name, Some(value))
    }

    /// `{...name}`
    fn spread(&mut self, name: &str) -> usize {
        let open = self.token(SyntaxKind::LCurly, "{");
        let dots = self.token(SyntaxKind::DotDotDot, "...");
        let argument = self.identifier(name);
        let close = self.token(SyntaxKind::RCurly, "}");
        self.node(SyntaxKind::JsxSpreadAttribute, vec![Some(open), Some(dots), Some(argument), Some(close)])
    }

    fn attributes(&mut self, items: Vec<usize>) -> usize {
        self.node(SyntaxKind::JsxAttributeList, items.into_iter().map(Some).collect())
    }

    /// `<name attributes />`
    fn self_closing(&mut self, name: Option<usize>, items: Vec<usize>) -> usize {
        let list = self.attributes(items);
        self.node(SyntaxKind::JsxSelfClosingElement, vec![None, name, None, Some(list), None, None])
    }

    /// `<name attributes>`
    fn opening(&mut self, name: Option<usize>, items: Vec<usize>) -> usize {
        let list = self.attributes(items);
        self.node(SyntaxKind::JsxOpeningElement, vec![None, name, None, Some(list), None])
    }

    fn children(&mut self, items: Vec<usize>) -> usize {
        self.node(SyntaxKind::JsxChildList, items.into_iter().map(Some).collect())
    }

    /// `<opening>children</...>`
    fn element(&mut self, opening: Option<usize>, items: Vec<usize>) -> usize {
        let list = self.children(items);
        self.node(SyntaxKind::JsxElement, vec![opening, Some(list), None])
    }

    /// `<>children</>`
    fn fragment(&mut self, items: Vec<usize>) -> usize {
        let list = self.children(items);
        self.node(SyntaxKind::JsxFragment, vec![None, Some(list), None])
    }

    fn text(&mut self, text: &str) -> usize {
        let token = self.token(SyntaxKind::JsxTextLiteral, text);
        self.node(SyntaxKind::JsxText, vec![Some(token)])
    }

    /// `{expression}` between tags.
    fn expression_child(&mut self, expression: Option<usize>) -> usize {
        self.node(SyntaxKind::JsxExpressionChild, vec![None, expression, None])
    }

    fn spread_child(&mut self) -> usize {
        let expression = self.identifier("items");
        self.node(SyntaxKind::JsxSpreadChild, vec![None, None, Some(expression), None])
    }

    fn finish(self) -> SyntaxTree {
        self.builder.finish()
    }
}

fn element(tree: &SyntaxTree, index: usize) -> AnyJsxElement<'_> {
    AnyJsxElement::cast(tree.node(index).expect("a node")).expect("an element")
}

fn found_index(found: Option<JsxAttribute<'_>>) -> Option<usize> {
    found.map(|attribute| attribute.syntax().index())
}

#[test]
fn a_plain_tag_name_is_a_native_element() {
    let mut jsx = Jsx::new();
    let name = jsx.name("div");
    let div = jsx.self_closing(Some(name), vec![]);
    let tree = jsx.finish();
    let div = element(&tree, div);
    assert!(!div.is_custom_component());
    assert!(div.is_element());
}

#[test]
fn a_member_name_is_a_component() {
    let mut jsx = Jsx::new();
    let name = jsx.member_name("Foo", "Bar");
    let tag = jsx.self_closing(Some(name), vec![]);
    let tree = jsx.finish();
    let tag = element(&tree, tag);
    assert!(tag.is_custom_component());
    assert!(!tag.is_element());
}

#[test]
fn a_name_with_a_namespace_is_a_component() {
    let mut jsx = Jsx::new();
    let name = jsx.namespace_name("ns", "Foo");
    let tag = jsx.opening(Some(name), vec![]);
    let tree = jsx.finish();
    let tag = element(&tree, tag);
    assert!(tag.is_custom_component());
    assert!(!tag.is_element());
}

#[test]
fn a_reference_is_a_component() {
    let mut jsx = Jsx::new();
    let name = jsx.reference("Foo");
    let tag = jsx.opening(Some(name), vec![]);
    let tree = jsx.finish();
    let tag = element(&tree, tag);
    assert!(tag.is_custom_component());
    assert!(!tag.is_element());
}

#[test]
fn the_shape_of_the_name_decides_not_its_spelling() {
    let mut jsx = Jsx::new();
    let upper = jsx.name("Span");
    let upper = jsx.self_closing(Some(upper), vec![]);
    let lower = jsx.reference("span");
    let lower = jsx.self_closing(Some(lower), vec![]);
    let tree = jsx.finish();
    assert!(!element(&tree, upper).is_custom_component());
    assert!(element(&tree, upper).is_element());
    assert!(element(&tree, lower).is_custom_component());
    assert!(!element(&tree, lower).is_element());
}

#[test]
fn an_element_without_a_name_is_neither() {
    let mut jsx = Jsx::new();
    let nameless = jsx.self_closing(None, vec![]);
    let tree = jsx.finish();
    let nameless = element(&tree, nameless);
    assert_eq!(nameless.name().err(), Some(SyntaxError::MissingRequiredChild));
    assert!(!nameless.is_custom_component());
    assert!(!nameless.is_element());
    assert!(nameless.name_value_token().is_none());
}

#[test]
fn name_value_token_of_each_shape() {
    let mut jsx = Jsx::new();
    let plain = jsx.name("div");
    let plain = jsx.self_closing(Some(plain), vec![]);
    let member = jsx.member_name("Foo", "Bar");
    let member = jsx.self_closing(Some(member), vec![]);
    let namespaced = jsx.namespace_name("ns", "Baz");
    let namespaced = jsx.self_closing(Some(namespaced), vec![]);
    let reference = jsx.reference("Qux");
    let reference = jsx.opening(Some(reference), vec![]);
    let tree = jsx.finish();
    assert_eq!(element(&tree, plain).name_value_token().expect("a token").text_trimmed(), "div");
    assert_eq!(element(&tree, member).name_value_token().expect("a token").text_trimmed(), "Bar");
    assert_eq!(element(&tree, namespaced).name_value_token().expect("a token").text_trimmed(), "Baz");
    assert_eq!(element(&tree, reference).name_value_token().expect("a token").text_trimmed(), "Qux");
    let name = element(&tree, member).name().expect("a name");
    assert!(matches!(name, AnyJsxElementName::JsxMemberName(_)));
    assert!(name.as_jsx_name().is_none());
    assert_eq!(name.name_value_token().expect("a token").text_trimmed(), "Bar");
    let name = element(&tree, plain).name().expect("a name");
    assert!(name.as_jsx_name().is_some());
}

#[test]
fn name_value_token_with_missing_parts() {
    let mut jsx = Jsx::new();
    let member = jsx.node(SyntaxKind::JsxMemberName, vec![None, None, None]);
    let member = jsx.self_closing(Some(member), vec![]);
    let namespaced = jsx.node(SyntaxKind::JsxNamespaceName, vec![None, None, None]);
    let namespaced = jsx.self_closing(Some(namespaced), vec![]);
    let plain = jsx.node(SyntaxKind::JsxName, vec![None]);
    let plain = jsx.self_closing(Some(plain), vec![]);
    let tree = jsx.finish();
    assert!(element(&tree, member).name_value_token().is_none());
    assert!(element(&tree, member).is_custom_component());
    assert!(element(&tree, namespaced).name_value_token().is_none());
    assert!(element(&tree, plain).name_value_token().is_none());
    assert!(element(&tree, plain).is_element());
}

#[test]
fn find_attribute_by_name_on_an_opening_element() {
    let mut jsx = Jsx::new();
    let div = jsx.named("div", None);
    let img = jsx.named("img", None);
    let name = jsx.name("Test");
    let opening = jsx.opening(Some(name), vec![div, img]);
    let tree = jsx.finish();
    let opening = JsxOpeningElement::cast(tree.node(opening).expect("a node")).expect("an opening element");
    assert_eq!(opening.find_attribute_by_name("div").unwrap().is_some(), true);
    assert_eq!(opening.find_attribute_by_name("img").unwrap().is_some(), true);
    assert_eq!(opening.find_attribute_by_name("p").unwrap().is_some(), false);
    assert_eq!(found_index(opening.find_attribute_by_name("img").unwrap()), Some(img));
}

#[test]
fn find_attribute_by_name_on_a_self_closing_element() {
    let mut jsx = Jsx::new();
    let div = jsx.named("div", None);
    let img = jsx.named("img", None);
    let name = jsx.name("Test");
    let tag = jsx.self_closing(Some(name), vec![div, img]);
    let tree = jsx.finish();
    let tag = JsxSelfClosingElement::cast(tree.node(tag).expect("a node")).expect("a self-closing element");
    assert_eq!(tag.find_attribute_by_name("div").unwrap().is_some(), true);
    assert_eq!(tag.find_attribute_by_name("img").unwrap().is_some(), true);
    assert_eq!(tag.find_attribute_by_name("p").unwrap().is_some(), false);
    assert_eq!(found_index(tag.find_attribute_by_name("div").unwrap()), Some(div));
}

#[test]
fn find_attribute_by_name_on_either_element() {
    let mut jsx = Jsx::new();
    let id = jsx.named("id", None);
    let name = jsx.name("a");
    let opening = jsx.opening(Some(name), vec![id]);
    let class = jsx.named("class", None);
    let name = jsx.name("b");
    let closed = jsx.self_closing(Some(name), vec![class]);
    let tree = jsx.finish();
    assert_eq!(found_index(element(&tree, opening).find_attribute_by_name("id")), Some(id));
    assert_eq!(found_index(element(&tree, opening).find_attribute_by_name("class")), None);
    assert_eq!(found_index(element(&tree, closed).find_attribute_by_name("class")), Some(class));
    assert_eq!(found_index(element(&tree, closed).find_attribute_by_name("id")), None);
    assert_eq!(element(&tree, opening).attributes().len(), 1);
}

#[test]
fn trailing_spread_on_an_opening_element() {
    let mut jsx = Jsx::new();
    let div = jsx.named("div", None);
    let spread = jsx.spread("spread");
    let name = jsx.name("Test");
    let opening = jsx.opening(Some(name), vec![div, spread]);
    let tree = jsx.finish();
    let opening = JsxOpeningElement::cast(tree.node(opening).expect("a node")).expect("an opening element");
    let div = opening.find_attribute_by_name("div").unwrap().unwrap();
    assert!(opening.has_trailing_spread_prop(&div));
}

#[test]
fn trailing_spread_on_a_self_closing_element() {
    let mut jsx = Jsx::new();
    let div = jsx.named("div", None);
    let spread = jsx.spread("spread");
    let name = jsx.name("Test");
    let tag = jsx.self_closing(Some(name), vec![div, spread]);
    let tree = jsx.finish();
    let tag = JsxSelfClosingElement::cast(tree.node(tag).expect("a node")).expect("a self-closing element");
    let div = tag.find_attribute_by_name("div").unwrap().unwrap();
    assert!(tag.has_trailing_spread_prop(&div));
}

#[test]
fn trailing_spread_on_either_element() {
    let mut jsx = Jsx::new();
    let spread = jsx.spread("props");
    let id = jsx.named("id", None);
    let name = jsx.name("a");
    let opening = jsx.opening(Some(name), vec![spread, id]);
    let class = jsx.named("class", None);
    let spread = jsx.spread("props");
    let name = jsx.name("b");
    let closed = jsx.self_closing(Some(name), vec![class, spread]);
    let tree = jsx.finish();
    let opening = element(&tree, opening);
    let id = opening.find_attribute_by_name("id").expect("an attribute");
    assert!(!opening.has_trailing_spread_prop(&id));
    let closed = element(&tree, closed);
    let class = closed.find_attribute_by_name("class").expect("an attribute");
    assert!(closed.has_trailing_spread_prop(&class));
    assert!(!closed.has_trailing_spread_prop(&id));
}

#[test]
fn has_spread_prop_looks_at_every_attribute() {
    let mut jsx = Jsx::new();
    let name = jsx.name("a");
    let none = jsx.self_closing(Some(name), vec![]);
    let id = jsx.named("id", None);
    let name = jsx.name("b");
    let named = jsx.self_closing(Some(name), vec![id]);
    let id = jsx.named("id", None);
    let spread = jsx.spread("props");
    let class = jsx.named("class", None);
    let name = jsx.name("c");
    let middle = jsx.opening(Some(name), vec![id, spread, class]);
    let spread = jsx.spread("props");
    let only = jsx.opening(None, vec![spread]);
    let tree = jsx.finish();
    assert!(!element(&tree, none).has_spread_prop());
    assert!(!element(&tree, named).has_spread_prop());
    assert!(element(&tree, middle).has_spread_prop());
    assert!(element(&tree, only).has_spread_prop());
}

#[test]
fn inner_string_text_of_a_string_attribute() {
    let mut jsx = Jsx::new();
    let yes = jsx.boolean(true);
    let disabled = jsx.named_expression("disabled", yes);
    let kind = jsx.named_string("type", "\"button\"");
    let name = jsx.name("button");
    let button = jsx.self_closing(Some(name), vec![disabled, kind]);
    let tree = jsx.finish();
    let button = element(&tree, button);
    assert_eq!(button.get_attribute_inner_string_text("unknown").is_none(), true);
    assert_eq!(button.get_attribute_inner_string_text("disabled").is_none(), true);
    assert_eq!(button.get_attribute_inner_string_text("type").unwrap(), "button");
}

#[test]
fn inner_string_text_of_other_shapes_is_nothing() {
    let mut jsx = Jsx::new();
    let shorthand = jsx.named("hidden", None);
    let text = jsx.string_expression("'x'");
    let braces = jsx.named_expression("title", text);
    let img = jsx.name("img");
    let img = jsx.self_closing(Some(img), vec![]);
    let icon = jsx.named("icon", Some(img));
    let string = jsx.node(SyntaxKind::JsxString, vec![None]);
    let broken = jsx.named("alt", Some(string));
    let single = jsx.named_string("lang", "'en'");
    let empty = jsx.named_string("class", "\"\"");
    let name = jsx.name("div");
    let div = jsx.opening(Some(name), vec![shorthand, braces, icon, broken, single, empty]);
    let tree = jsx.finish();
    let div = element(&tree, div);
    assert_eq!(div.get_attribute_inner_string_text("hidden"), None);
    assert_eq!(div.get_attribute_inner_string_text("title"), None);
    assert_eq!(div.get_attribute_inner_string_text("icon"), None);
    assert_eq!(div.get_attribute_inner_string_text("alt"), None);
    assert_eq!(div.get_attribute_inner_string_text("lang"), Some("en".to_string()));
    assert_eq!(div.get_attribute_inner_string_text("class"), Some(String::new()));
}

#[test]
fn inner_string_text_is_that_of_the_first_attribute() {
    let mut jsx = Jsx::new();
    let first = jsx.named("class", None);
    let second = jsx.named_string("class", "\"a\"");
    let name = jsx.name("div");
    let div = jsx.self_closing(Some(name), vec![first, second]);
    let tree = jsx.finish();
    assert_eq!(element(&tree, div).get_attribute_inner_string_text("class"), None);
}

fn div_with(jsx: &mut Jsx, attributes: Vec<usize>) -> usize {
    let name = jsx.name("div");
    jsx.self_closing(Some(name), attributes)
}

#[test]
fn a_string_that_reads_false_is_not_truthy() {
    let mut jsx = Jsx::new();
    let hidden = jsx.named_string("aria-hidden", "\"false\"");
    let div = div_with(&mut jsx, vec![hidden]);
    let tree = jsx.finish();
    assert!(!element(&tree, div).has_truthy_attribute("aria-hidden"));
}

#[test]
fn an_attribute_without_a_value_is_truthy() {
    let mut jsx = Jsx::new();
    let hidden = jsx.named("aria-hidden", None);
    let div = div_with(&mut jsx, vec![hidden]);
    let tree = jsx.finish();
    assert!(element(&tree, div).has_truthy_attribute("aria-hidden"));
}

#[test]
fn a_trailing_spread_defeats_a_truthy_attribute() {
    let mut jsx = Jsx::new();
    let cond = jsx.identifier("cond");
    let hidden = jsx.named_expression("aria-hidden", cond);
    let spread = jsx.spread("spread");
    let div = div_with(&mut jsx, vec![hidden, spread]);
    let tree = jsx.finish();
    assert!(!element(&tree, div).has_truthy_attribute("aria-hidden"));
}

#[test]
fn an_expression_that_is_not_static_is_truthy() {
    let mut jsx = Jsx::new();
    let cond = jsx.identifier("cond");
    let hidden = jsx.named_expression("aria-hidden", cond);
    let call = jsx.other_expression();
    let title = jsx.named_expression("title", call);
    let div = div_with(&mut jsx, vec![hidden, title]);
    let tree = jsx.finish();
    assert!(element(&tree, div).has_truthy_attribute("aria-hidden"));
    assert!(element(&tree, div).has_truthy_attribute("title"));
}

#[test]
fn a_leading_spread_does_not_defeat_a_truthy_attribute() {
    let mut jsx = Jsx::new();
    let spread = jsx.spread("spread");
    let hidden = jsx.named("aria-hidden", None);
    let div = div_with(&mut jsx, vec![spread, hidden]);
    let tree = jsx.finish();
    assert!(element(&tree, div).has_truthy_attribute("aria-hidden"));
}

#[test]
fn an_absent_attribute_is_not_truthy() {
    let mut jsx = Jsx::new();
    let id = jsx.named("id", None);
    let div = div_with(&mut jsx, vec![id]);
    let bare = div_with(&mut jsx, vec![]);
    let tree = jsx.finish();
    assert!(!element(&tree, div).has_truthy_attribute("aria-hidden"));
    assert!(!element(&tree, bare).has_truthy_attribute("aria-hidden"));
}

#[test]
fn falsy_static_values_are_not_truthy() {
    let mut jsx = Jsx::new();
    let no = jsx.boolean(false);
    let a = jsx.named_expression("a", no);
    let null = jsx.null();
    let b = jsx.named_expression("b", null);
    let undefined = jsx.identifier("undefined");
    let c = jsx.named_expression("c", undefined);
    let d = jsx.named_string("d", "\"\"");
    let empty = jsx.string_expression("''");
    let e = jsx.named_expression("e", empty);
    let reads_false = jsx.string_expression("'false'");
    let f = jsx.named_expression("f", reads_false);
    let div = div_with(&mut jsx, vec![a, b, c, d, e, f]);
    let tree = jsx.finish();
    for name in ["a", "b", "c", "d", "e", "f"] {
        assert!(!element(&tree, div).has_truthy_attribute(name), "{}", name);
    }
}

#[test]
fn other_static_values_are_truthy() {
    let mut jsx = Jsx::new();
    let yes = jsx.boolean(true);
    let a = jsx.named_expression("a", yes);
    let b = jsx.named_string("b", "\"true\"");
    let c = jsx.named_string("c", "\"False\"");
    let d = jsx.named_string("d", "\" false\"");
    let zero = jsx.string_expression("'0'");
    let e = jsx.named_expression("e", zero);
    let div = div_with(&mut jsx, vec![a, b, c, d, e]);
    let tree = jsx.finish();
    for name in ["a", "b", "c", "d", "e"] {
        assert!(element(&tree, div).has_truthy_attribute(name), "{}", name);
    }
}

#[test]
fn truthiness_is_that_of_the_first_attribute() {
    let mut jsx = Jsx::new();
    let first = jsx.named_string("hidden", "\"false\"");
    let second = jsx.named("hidden", None);
    let falsy_first = div_with(&mut jsx, vec![first, second]);
    let first = jsx.named("hidden", None);
    let second = jsx.named_string("hidden", "\"false\"");
    let truthy_first = div_with(&mut jsx, vec![first, second]);
    let tree = jsx.finish();
    assert!(!element(&tree, falsy_first).has_truthy_attribute("hidden"));
    assert!(element(&tree, truthy_first).has_truthy_attribute("hidden"));
}

#[test]
fn a_spread_between_two_attributes_of_a_name_defeats_the_first() {
    let mut jsx = Jsx::new();
    let first = jsx.named("hidden", None);
    let spread = jsx.spread("props");
    let second = jsx.named("hidden", None);
    let div = div_with(&mut jsx, vec![first, spread, second]);
    let tree = jsx.finish();
    assert!(!element(&tree, div).has_truthy_attribute("hidden"));
}

#[test]
fn a_value_that_is_missing_counts_as_not_static() {
    let mut jsx = Jsx::new();
    let name = jsx.name("hidden");
    let initializer = jsx.node(SyntaxKind::JsxAttributeInitializerClause, vec![None, None]);
    let hidden = jsx.node(SyntaxKind::JsxAttribute, vec![Some(name), Some(initializer)]);
    let div = div_with(&mut jsx, vec![hidden]);
    let tree = jsx.finish();
    assert!(element(&tree, div).has_truthy_attribute("hidden"));
}

#[test]
fn tag_name_and_attributes() {
    let mut jsx = Jsx::new();
    let id = jsx.named("id", None);
    let name = jsx.name("div");
    let opening = jsx.opening(Some(name), vec![id]);
    let with_children = jsx.element(Some(opening), vec![]);
    let name = jsx.reference("Icon");
    let closed = jsx.self_closing(Some(name), vec![]);
    let fragment = jsx.fragment(vec![]);
    let headless = jsx.element(None, vec![]);
    let nameless = jsx.self_closing(None, vec![]);
    let tree = jsx.finish();
    let tag = |index: usize| AnyJsxTag::cast(tree.node(index).expect("a node")).expect("a tag");

    let name = tag(with_children).name().expect("a name");
    assert_eq!(name.name_value_token().expect("a token").text_trimmed(), "div");
    assert_eq!(tag(with_children).attributes().expect("attributes").len(), 1);

    let name = tag(closed).name().expect("a name");
    assert!(matches!(name, AnyJsxElementName::JsxReferenceIdentifier(_)));
    assert_eq!(tag(closed).attributes().expect("attributes").len(), 0);

    assert!(tag(fragment).name().is_none());
    assert!(tag(fragment).attributes().is_none());
    assert!(tag(headless).name().is_none());
    assert!(tag(headless).attributes().is_none());
    assert!(tag(nameless).name().is_none());
    assert!(tag(nameless).attributes().is_some());
    assert!(AnyJsxTag::cast(tree.node(opening).expect("a node")).is_none());
}

#[test]
fn an_element_is_cast_from_either_tag() {
    let mut jsx = Jsx::new();
    let opening = jsx.opening(None, vec![]);
    let with_children = jsx.element(Some(opening), vec![]);
    let closed = jsx.self_closing(None, vec![]);
    let tree = jsx.finish();
    assert!(matches!(element(&tree, opening), AnyJsxElement::JsxOpeningElement(_)));
    assert!(matches!(element(&tree, closed), AnyJsxElement::JsxSelfClosingElement(_)));
    assert!(AnyJsxElement::cast(tree.node(with_children).expect("a node")).is_none());
    assert_eq!(element(&tree, opening).syntax().index(), opening);
    assert_eq!(element(&tree, opening).syntax().parent().expect("a parent").index(), with_children);
}
