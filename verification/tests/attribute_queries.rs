use jsx_syntax::attributes::MAX_LOOKUP_NAMES;
use jsx_syntax::kind::SyntaxKind;
use jsx_syntax::nodes::{
    AnyJsExpression, AnyJsxAttribute, AnyJsxAttributeName, AnyJsxAttributeValue, JsxAttribute, JsxAttributeList,
    JsxString,
};
use jsx_syntax::static_value::StaticValue;
use jsx_syntax::syntax::{SyntaxError, SyntaxTree};
use jsx_syntax::text::TextRange;
use jsx_syntax::tree::TreeBuilder;

/// Builds the tree of a piece of source bottom-up, handing out ranges as it goes.
struct Jsx {
    builder: TreeBuilder,
    at: u32,
}

#[allow(dead_code)]
impl Jsx {
    fn new() -> Self {
        Jsx { builder: TreeBuilder::new(), at: 0 }
    }

    fn token(&mut self, kind: SyntaxKind, text: &str) -> usize {
        let start = self.at;
        self.at += text.len() as u32;
        self.builder.token(kind, "", text, "", TextRange::new(start, self.at)).expect("a token")
    }

    fn node(&mut self, kind: SyntaxKind, slots: Vec<Option<usize>>) -> usize {
        self.builder.node(kind, slots, TextRange::new(0, self.at)).expect("a node")
    }

    fn name(&mut self, text: &str) -> usize {
        let ident = self.token(SyntaxKind::JsxIdent, text);
        self.node(SyntaxKind::JsxName, vec![Some(ident)])
    }

    fn reference(&mut self, text: &str) -> usize {
        let ident = self.token(SyntaxKind::JsxIdent, text);
        self.node(SyntaxKind::JsxReferenceIdentifier, vec![Some(ident)])
    }

    fn member_name(&mut self, object: &str, member: &str) -> usize {
        let object = self.reference(object);
        let dot = self.token(SyntaxKind::Dot, ".");
        let ident = self.token(SyntaxKind::Ident, member);
        let member = self.node(SyntaxKind::JsName, vec![Some(ident)]);
        self.node(SyntaxKind::JsxMemberName, vec![Some(object), Some(dot), Some(member)])
    }

    fn namespace_name(&mut self, namespace: &str, name: &str) -> usize {
        let namespace = self.name(namespace);
        let colon = self.token(SyntaxKind::Colon, ":");
        let name = self.name(name);
        self.node(SyntaxKind::JsxNamespaceName, vec![Some(namespace), Some(colon), Some(name)])
    }

    fn string(&mut self, literal: &str) -> usize {
        let token = self.token(SyntaxKind::JsxStringLiteral, literal);
        self.node(SyntaxKind::JsxString, vec![Some(token)])
    }

    fn string_expression(&mut self, literal: &str) -> usize {
        let token = self.token(SyntaxKind::JsStringLiteral, literal);
        self.node(SyntaxKind::JsStringLiteralExpression, vec![Some(token)])
    }

    fn boolean(&mut self, value: bool) -> usize {
        let token = if value {
            self.token(SyntaxKind::TrueKw, "true")
        } else {
            self.token(SyntaxKind::FalseKw, "false")
        };
        self.node(SyntaxKind::JsBooleanLiteralExpression, vec![Some(token)])
    }

    fn null(&mut self) -> usize {
        let token = self.token(SyntaxKind::NullKw, "null");
        self.node(SyntaxKind::JsNullLiteralExpression, vec![Some(token)])
    }

    fn identifier(&mut self, name: &str) -> usize {
        let token = self.token(SyntaxKind::Ident, name);
        let reference = self.node(SyntaxKind::JsReferenceIdentifier, vec![Some(token)]);
        self.node(SyntaxKind::JsIdentifierExpression, vec![Some(reference)])
    }

    fn other_expression(&mut self) -> usize {
        let token = self.token(SyntaxKind::OtherToken, "f()");
        self.node(SyntaxKind::JsOtherExpression, vec![Some(token)])
    }

    fn braces(&mut self, expression: Option<usize>) -> usize {
        let open = self.token(SyntaxKind::LCurly, "{");
        let close = self.token(SyntaxKind::RCurly, "}");
        self.node(SyntaxKind::JsxExpressionAttributeValue, vec![Some(open), expression, Some(close)])
    }

    fn attribute(&mut self, name: Option<usize>, value: Option<usize>) -> usize {
        let initializer = match value {
            Some(value) => {
                let eq = self.token(SyntaxKind::Eq, "=");
                Some(self.node(SyntaxKind::JsxAttributeInitializerClause, vec![Some(eq), Some(value)]))
            }
            None => None,
        };
        self.node(SyntaxKind::JsxAttribute, vec![name, initializer])
    }

    /// `name`, or `name=value` where `value` is the node of the value.
    fn named(&mut self, name: &str, value: Option<usize>) -> usize {
        let name = self.name(name);
        self.attribute(Some(name), value)
    }

    /// `name="text"`
    fn named_string(&mut self, name: &str, literal: &str) -> usize {
        let value = self.string(literal);
        self.named(name, Some(value))
    }

    /// `name={expression}`
    fn named_expression(&mut self, name: &str, expression: usize) -> usize {
        let value = self.braces(Some(expression));
        self.named(name, Some(value))
    }

    /// `{...name}`
    fn spread(&mut self, name: &str) -> usize {
        let open = self.token(SyntaxKind::LCurly, "{");
        let dots = self.token(SyntaxKind::DotDotDot, "...");
        let argument = self.identifier(name);
        let close = self.token(SyntaxKind::RCurly, "}");
        self.node(SyntaxKind::JsxSpreadAttribute, vec![Some(open), Some(dots), Some(argument), Some(close)])
    }

    fn attributes(&mut self, items: Vec<usize>) -> usize {
        self.node(SyntaxKind::JsxAttributeList, items.into_iter().map(Some).collect())
    }

    /// `<name attributes />`
    fn self_closing(&mut self, name: Option<usize>, items: Vec<usize>) -> usize {
        let list = self.attributes(items);
        self.node(SyntaxKind::JsxSelfClosingElement, vec![None, name, None, Some(list), None, None])
    }

    /// `<name attributes>`
    fn opening(&mut self, name: Option<usize>, items: Vec<usize>) -> usize {
        let list = self.attributes(items);
        self.node(SyntaxKind::JsxOpeningElement, vec![None, name, None, Some(list), None])
    }

    fn children(&mut self, items: Vec<usize>) -> usize {
        self.node(SyntaxKind::JsxChildList, items.into_iter().map(Some).collect())
    }

    /// `<opening>children</...>`
    fn element(&mut self, opening: Option<usize>, items: Vec<usize>) -> usize {
        let list = self.children(items);
        self.node(SyntaxKind::JsxElement, vec![opening, Some(list), None])
    }

    /// `<>children</>`
    fn fragment(&mut self, items: Vec<usize>) -> usize {
        let list = self.children(items);
        self.node(SyntaxKind::JsxFragment, vec![None, Some(list), None])
    }

    fn text(&mut self, text: &str) -> usize {
        let token = self.token(SyntaxKind::JsxTextLiteral, text);
        self.node(SyntaxKind::JsxText, vec![Some(token)])
    }

    /// `{expression}` between tags.
    fn expression_child(&mut self, expression: Option<usize>) -> usize {
        self.node(SyntaxKind::JsxExpressionChild, vec![None, expression, None])
    }

    fn spread_child(&mut self) -> usize {
        let expression = self.identifier("items");
        self.node(SyntaxKind::JsxSpreadChild, vec![None, None, Some(expression), None])
    }

    fn finish(self) -> SyntaxTree {
        self.builder.finish()
    }
}

fn list(tree: &SyntaxTree, index: usize) -> JsxAttributeList<'_> {
    JsxAttributeList::cast(tree.node(index).expect("a node")).expect("an attribute list")
}

fn attribute(tree: &SyntaxTree, index: usize) -> JsxAttribute<'_> {
    JsxAttribute::cast(tree.node(index).expect("a node")).expect("an attribute")
}

fn found_index(found: Option<JsxAttribute<'_>>) -> Option<usize> {
    found.map(|attribute| attribute.syntax().index())
}

#[test]
fn find_by_name_on_an_empty_list_finds_nothing() {
    let mut jsx = Jsx::new();
    let attributes = jsx.attributes(vec![]);
    let tree = jsx.finish();
    assert_eq!(found_index(list(&tree, attributes).find_by_name("div").expect("no error")), None);
}

#[test]
fn find_by_name_returns_the_only_attribute_of_the_name() {
    let mut jsx = Jsx::new();
    let id = jsx.named_string("id", "\"a\"");
    let class = jsx.named_string("class", "\"b\"");
    let attributes = jsx.attributes(vec![id, class]);
    let tree = jsx.finish();
    let attributes = list(&tree, attributes);
    assert_eq!(found_index(attributes.find_by_name("class").expect("no error")), Some(class));
    assert_eq!(found_index(attributes.find_by_name("id").expect("no error")), Some(id));
}

#[test]
fn find_by_name_without_a_match_finds_nothing() {
    let mut jsx = Jsx::new();
    let id = jsx.named_string("id", "\"a\"");
    let attributes = jsx.attributes(vec![id]);
    let tree = jsx.finish();
    let attributes = list(&tree, attributes);
    assert_eq!(found_index(attributes.find_by_name("class").expect("no error")), None);
    assert_eq!(found_index(attributes.find_by_name("i").expect("no error")), None);
    assert_eq!(found_index(attributes.find_by_name("").expect("no error")), None);
    assert_eq!(found_index(attributes.find_by_name("ID").expect("no error")), None);
}

#[test]
fn find_by_name_returns_the_first_of_a_repeated_name() {
    let mut jsx = Jsx::new();
    let first = jsx.named_string("class", "\"a\"");
    let other = jsx.named("id", None);
    let second = jsx.named_string("class", "\"b\"");
    let attributes = jsx.attributes(vec![first, other, second]);
    let tree = jsx.finish();
    assert_eq!(found_index(list(&tree, attributes).find_by_name("class").expect("no error")), Some(first));
}

#[test]
fn find_by_name_never_matches_a_spread() {
    let mut jsx = Jsx::new();
    let spread = jsx.spread("props");
    let attributes = jsx.attributes(vec![spread]);
    let tree = jsx.finish();
    let attributes = list(&tree, attributes);
    assert_eq!(found_index(attributes.find_by_name("props").expect("no error")), None);
    assert_eq!(found_index(attributes.find_by_name("...").expect("no error")), None);
    assert_eq!(found_index(attributes.find_by_name("").expect("no error")), None);
}

#[test]
fn find_by_name_passes_over_a_spread_to_the_match() {
    let mut jsx = Jsx::new();
    let spread = jsx.spread("props");
    let id = jsx.named("id", None);
    let attributes = jsx.attributes(vec![spread, id]);
    let tree = jsx.finish();
    assert_eq!(found_index(list(&tree, attributes).find_by_name("id").expect("no error")), Some(id));
}

#[test]
fn find_by_name_passes_over_a_name_with_a_namespace() {
    let mut jsx = Jsx::new();
    let name = jsx.namespace_name("xlink", "href");
    let namespaced = jsx.attribute(Some(name), None);
    let plain = jsx.named("href", None);
    let attributes = jsx.attributes(vec![namespaced, plain]);
    let tree = jsx.finish();
    let attributes = list(&tree, attributes);
    assert_eq!(found_index(attributes.find_by_name("href").expect("no error")), Some(plain));
    assert_eq!(found_index(attributes.find_by_name("xlink:href").expect("no error")), None);
    assert_eq!(found_index(attributes.find_by_name("xlink").expect("no error")), None);
}

#[test]
fn find_by_name_passes_over_an_attribute_without_a_name() {
    let mut jsx = Jsx::new();
    let nameless = jsx.attribute(None, None);
    let empty_name = jsx.node(SyntaxKind::JsxName, vec![None]);
    let tokenless = jsx.attribute(Some(empty_name), None);
    let id = jsx.named("id", None);
    let attributes = jsx.attributes(vec![nameless, tokenless, id]);
    let tree = jsx.finish();
    let attributes = list(&tree, attributes);
    assert_eq!(found_index(attributes.find_by_name("id").expect("no error")), Some(id));
    assert_eq!(found_index(attributes.find_by_name("").expect("no error")), None);
}

#[test]
fn find_by_name_compares_the_text_without_trivia() {
    let mut builder = TreeBuilder::new();
    let ident = builder.token(SyntaxKind::JsxIdent, "  ", "id", " ", TextRange::new(2, 4)).expect("a token");
    let name = builder.node(SyntaxKind::JsxName, vec![Some(ident)], TextRange::new(2, 4)).expect("a node");
    let id = builder.node(SyntaxKind::JsxAttribute, vec![Some(name), None], TextRange::new(2, 4)).expect("a node");
    let attributes = builder.node(SyntaxKind::JsxAttributeList, vec![Some(id)], TextRange::new(2, 4)).expect("a node");
    let tree = builder.finish();
    let attributes = list(&tree, attributes);
    assert_eq!(found_index(attributes.find_by_name("id").expect("no error")), Some(id));
    assert_eq!(found_index(attributes.find_by_name("  id ").expect("no error")), None);
}

#[test]
fn is_named_goes_by_the_plain_name() {
    let mut jsx = Jsx::new();
    let id = jsx.named("id", None);
    let name = jsx.namespace_name("xlink", "href");
    let namespaced = jsx.attribute(Some(name), None);
    let tree = {
        jsx.attributes(vec![id, namespaced]);
        jsx.finish()
    };
    assert!(attribute(&tree, id).is_named("id"));
    assert!(!attribute(&tree, id).is_named("i"));
    assert_eq!(attribute(&tree, id).plain_name(), Some("id"));
    assert!(!attribute(&tree, namespaced).is_named("href"));
    assert_eq!(attribute(&tree, namespaced).plain_name(), None);
}

#[test]
fn find_by_names_finds_each_name() {
    let mut jsx = Jsx::new();
    let id = jsx.named("id", None);
    let spread = jsx.spread("props");
    let class = jsx.named("class", None);
    let role = jsx.named("role", None);
    let attributes = jsx.attributes(vec![id, spread, class, role]);
    let tree = jsx.finish();
    let attributes = list(&tree, attributes);
    let [found_role, found_title, found_id] = attributes.find_by_names(["role", "title", "id"]);
    assert_eq!(found_index(found_role), Some(role));
    assert_eq!(found_index(found_title), None);
    assert_eq!(found_index(found_id), Some(id));
}

#[test]
fn find_by_names_agrees_with_find_by_name() {
    let mut jsx = Jsx::new();
    let a1 = jsx.named("a", None);
    let b1 = jsx.named("b", None);
    let a2 = jsx.named("a", None);
    let c1 = jsx.named("c", None);
    let b2 = jsx.named("b", None);
    let attributes = jsx.attributes(vec![a1, b1, a2, c1, b2]);
    let tree = jsx.finish();
    let attributes = list(&tree, attributes);
    let names = ["c", "b", "d", "a"];
    let found = attributes.find_by_names(names);
    for (name, found) in names.iter().zip(found) {
        assert_eq!(found_index(found), found_index(attributes.find_by_name(name).expect("no error")));
    }
    assert_eq!(found_index(found[0]), Some(c1));
    assert_eq!(found_index(found[1]), Some(b1));
    assert_eq!(found_index(found[2]), None);
    assert_eq!(found_index(found[3]), Some(a1));
}

#[test]
fn find_by_names_with_every_name_found_early() {
    let mut jsx = Jsx::new();
    let a = jsx.named("a", None);
    let b = jsx.named("b", None);
    let again = jsx.named("a", None);
    let attributes = jsx.attributes(vec![a, b, again]);
    let tree = jsx.finish();
    let [found_b, found_a] = list(&tree, attributes).find_by_names(["b", "a"]);
    assert_eq!(found_index(found_b), Some(b));
    assert_eq!(found_index(found_a), Some(a));
}

#[test]
fn find_by_names_without_names_or_attributes() {
    let mut jsx = Jsx::new();
    let a = jsx.named("a", None);
    let some = jsx.attributes(vec![a]);
    let none = jsx.attributes(vec![]);
    let tree = jsx.finish();
    let found: [Option<JsxAttribute<'_>>; 0] = list(&tree, some).find_by_names([]);
    assert_eq!(found.len(), 0);
    let [found_a] = list(&tree, none).find_by_names(["a"]);
    assert!(found_a.is_none());
}

#[test]
fn a_repeated_name_is_refused_before_the_list_is_read() {
    let mut jsx = Jsx::new();
    let div = jsx.named("div", None);
    let some = jsx.attributes(vec![div]);
    let none = jsx.attributes(vec![]);
    let tree = jsx.finish();
    assert!(list(&tree, some).checked_find_by_names(["div", "div"]).is_none());
    assert!(list(&tree, none).checked_find_by_names(["div", "div"]).is_none());
    assert!(list(&tree, some).checked_find_by_names(["a", "div", "b", "div"]).is_none());
    assert!(!JsxAttributeList::accepts_names(&["div", "div"]));
}

#[test]
fn more_names_than_the_bound_are_refused() {
    let mut jsx = Jsx::new();
    let a = jsx.named("a", None);
    let attributes = jsx.attributes(vec![a]);
    let tree = jsx.finish();
    let attributes = list(&tree, attributes);
    let sixteen = ["a", "b", "c", "d", "e", "f", "g", "h", "i", "j", "k", "l", "m", "n", "o", "p"];
    let seventeen = ["a", "b", "c", "d", "e", "f", "g", "h", "i", "j", "k", "l", "m", "n", "o", "p", "q"];
    assert_eq!(MAX_LOOKUP_NAMES, 16);
    assert!(JsxAttributeList::accepts_names(&sixteen));
    assert!(!JsxAttributeList::accepts_names(&seventeen));
    assert!(attributes.checked_find_by_names(seventeen).is_none());
    let found = attributes.checked_find_by_names(sixteen).expect("sixteen names are fine");
    assert_eq!(found_index(found[0]), Some(a));
    assert!(found[1..].iter().all(|found| found.is_none()));
}

#[test]
fn checked_find_by_names_finds_what_find_by_names_finds() {
    let mut jsx = Jsx::new();
    let a = jsx.named("a", None);
    let b = jsx.named("b", None);
    let attributes = jsx.attributes(vec![a, b]);
    let tree = jsx.finish();
    let attributes = list(&tree, attributes);
    let [found_b, found_c] = attributes.checked_find_by_names(["b", "c"]).expect("the names are fine");
    assert_eq!(found_index(found_b), Some(b));
    assert_eq!(found_index(found_c), None);
    assert!(attributes.checked_find_by_names::<0>([]).is_some());
}

#[test]
fn a_spread_after_the_attribute_trails_it() {
    let mut jsx = Jsx::new();
    let div = jsx.named("div", None);
    let spread = jsx.spread("spread");
    let attributes = jsx.attributes(vec![div, spread]);
    let tree = jsx.finish();
    assert!(list(&tree, attributes).has_trailing_spread_prop(&attribute(&tree, div)));
}

#[test]
fn a_spread_before_the_attribute_does_not_trail_it() {
    let mut jsx = Jsx::new();
    let spread = jsx.spread("spread");
    let div = jsx.named("div", None);
    let attributes = jsx.attributes(vec![spread, div]);
    let tree = jsx.finish();
    assert!(!list(&tree, attributes).has_trailing_spread_prop(&attribute(&tree, div)));
}

#[test]
fn the_last_attribute_has_no_trailing_spread() {
    let mut jsx = Jsx::new();
    let first = jsx.spread("a");
    let id = jsx.named("id", None);
    let second = jsx.spread("b");
    let last = jsx.named("class", None);
    let attributes = jsx.attributes(vec![first, id, second, last]);
    let tree = jsx.finish();
    let attributes = list(&tree, attributes);
    assert!(!attributes.has_trailing_spread_prop(&attribute(&tree, last)));
    assert!(attributes.has_trailing_spread_prop(&attribute(&tree, id)));
}

#[test]
fn a_spread_need_not_follow_at_once() {
    let mut jsx = Jsx::new();
    let id = jsx.named("id", None);
    let class = jsx.named("class", None);
    let spread = jsx.spread("props");
    let attributes = jsx.attributes(vec![id, class, spread]);
    let tree = jsx.finish();
    let attributes = list(&tree, attributes);
    assert!(attributes.has_trailing_spread_prop(&attribute(&tree, id)));
    assert!(attributes.has_trailing_spread_prop(&attribute(&tree, class)));
}

#[test]
fn without_a_spread_nothing_trails() {
    let mut jsx = Jsx::new();
    let id = jsx.named("id", None);
    let class = jsx.named("class", None);
    let attributes = jsx.attributes(vec![id, class]);
    let tree = jsx.finish();
    let attributes = list(&tree, attributes);
    assert!(!attributes.has_trailing_spread_prop(&attribute(&tree, id)));
    assert!(!attributes.has_trailing_spread_prop(&attribute(&tree, class)));
}

#[test]
fn an_attribute_of_another_list_has_no_trailing_spread() {
    let mut jsx = Jsx::new();
    let stranger = jsx.named("id", None);
    let other = jsx.attributes(vec![stranger]);
    let id = jsx.named("id", None);
    let spread = jsx.spread("props");
    let attributes = jsx.attributes(vec![id, spread]);
    let tree = jsx.finish();
    assert!(!list(&tree, attributes).has_trailing_spread_prop(&attribute(&tree, stranger)));
    assert!(!list(&tree, other).has_trailing_spread_prop(&attribute(&tree, id)));
}

#[test]
fn an_attribute_equal_in_text_is_not_the_same_attribute() {
    let mut jsx = Jsx::new();
    let first = jsx.named("id", None);
    let spread = jsx.spread("props");
    let second = jsx.named("id", None);
    let attributes = jsx.attributes(vec![first, spread, second]);
    let tree = jsx.finish();
    let attributes = list(&tree, attributes);
    assert!(attributes.has_trailing_spread_prop(&attribute(&tree, first)));
    assert!(!attributes.has_trailing_spread_prop(&attribute(&tree, second)));
}

#[test]
fn list_items_come_in_source_order() {
    let mut jsx = Jsx::new();
    let id = jsx.named("id", None);
    let spread = jsx.spread("props");
    let attributes = jsx.attributes(vec![id, spread]);
    let tree = jsx.finish();
    let attributes = list(&tree, attributes);
    assert_eq!(attributes.len(), 2);
    let first = attributes.get(0).expect("an item");
    let second = attributes.get(1).expect("an item");
    assert!(attributes.get(2).is_none());
    assert_eq!(first.syntax().index(), id);
    assert_eq!(second.syntax().index(), spread);
    assert!(first.as_jsx_attribute().is_some());
    assert!(first.as_jsx_spread_attribute().is_none());
    assert!(second.as_jsx_spread_attribute().is_some());
    assert!(second.as_jsx_attribute().is_none());
    assert!(matches!(first, AnyJsxAttribute::JsxAttribute(_)));
}

#[test]
fn attribute_name_tokens() {
    let mut jsx = Jsx::new();
    let plain = jsx.named("href", None);
    let name = jsx.namespace_name("xlink", "href");
    let namespaced = jsx.attribute(Some(name), None);
    let nameless = jsx.attribute(None, None);
    let tree = {
        jsx.attributes(vec![plain, namespaced, nameless]);
        jsx.finish()
    };
    let plain = attribute(&tree, plain);
    let plain_name = plain.name().expect("a name");
    assert_eq!(plain_name.name_token().expect("a token").text_trimmed(), "href");
    assert!(plain_name.namespace_token().is_none());
    assert!(matches!(plain_name, AnyJsxAttributeName::JsxName(_)));
    assert!(plain_name.as_jsx_name().is_some());
    assert_eq!(plain.name_value_token().expect("a token").text_trimmed(), "href");

    let namespaced = attribute(&tree, namespaced);
    let namespaced_name = namespaced.name().expect("a name");
    assert_eq!(namespaced_name.name_token().expect("a token").text_trimmed(), "href");
    assert_eq!(namespaced_name.namespace_token().expect("a token").text_trimmed(), "xlink");
    assert!(namespaced_name.as_jsx_name().is_none());
    assert_eq!(namespaced.name_value_token().expect("a token").text_trimmed(), "href");

    let nameless = attribute(&tree, nameless);
    assert_eq!(nameless.name().err(), Some(SyntaxError::MissingRequiredChild));
    assert!(nameless.name_value_token().is_none());
}

#[test]
fn namespace_name_with_missing_parts() {
    let mut jsx = Jsx::new();
    let name = jsx.node(SyntaxKind::JsxNamespaceName, vec![None, None, None]);
    let lone = jsx.attribute(Some(name), None);
    let tree = jsx.finish();
    let name = attribute(&tree, lone).name().expect("a name");
    assert_eq!(name.name_token().err(), Some(SyntaxError::MissingRequiredChild));
    assert!(name.namespace_token().is_none());
    assert!(attribute(&tree, lone).name_value_token().is_none());
}

#[test]
fn inner_string_text_leaves_out_quotes_and_trivia() {
    let mut builder = TreeBuilder::new();
    let token = builder
        .token(SyntaxKind::JsxStringLiteral, " ", "\"button\"", "", TextRange::new(1, 9))
        .expect("a token");
    let string = builder.node(SyntaxKind::JsxString, vec![Some(token)], TextRange::new(1, 9)).expect("a node");
    let empty = builder.node(SyntaxKind::JsxString, vec![None], TextRange::new(9, 9)).expect("a node");
    let tree = builder.finish();
    let string = JsxString::cast(tree.node(string).expect("a node")).expect("a string");
    assert_eq!(string.inner_string_text(), Ok("button"));
    assert_eq!(string.value_token().expect("a token").text_trimmed(), "\"button\"");
    let empty = JsxString::cast(tree.node(empty).expect("a node")).expect("a string");
    assert_eq!(empty.inner_string_text(), Err(SyntaxError::MissingRequiredChild));
}

#[test]
fn inner_string_text_of_a_token_goes_by_its_kind() {
    let mut jsx = Jsx::new();
    let single = jsx.token(SyntaxKind::JsStringLiteral, "'it'");
    let double = jsx.token(SyntaxKind::JsxStringLiteral, "\"\"");
    let ident = jsx.token(SyntaxKind::JsxIdent, "div");
    let text = jsx.token(SyntaxKind::JsxTextLiteral, "\"said\"");
    let tree = jsx.finish();
    assert_eq!(tree.token(single).expect("a token").inner_string_text(), "it");
    assert_eq!(tree.token(double).expect("a token").inner_string_text(), "");
    assert_eq!(tree.token(ident).expect("a token").inner_string_text(), "div");
    assert_eq!(tree.token(text).expect("a token").inner_string_text(), "\"said\"");
}

fn expression(tree: &SyntaxTree, index: usize) -> AnyJsExpression<'_> {
    AnyJsExpression::cast(tree.node(index).expect("a node")).expect("an expression")
}

#[test]
fn static_value_of_a_string_literal() {
    let mut jsx = Jsx::new();
    let full = jsx.string_expression("'hello'");
    let empty = jsx.string_expression("\"\"");
    let tree = jsx.finish();
    let value = expression(&tree, full).as_static_value().expect("a static value");
    assert!(matches!(value, StaticValue::String(_)));
    assert_eq!(value.text(), "hello");
    assert!(!value.is_falsy());
    assert!(!value.is_null_or_undefined());
    let value = expression(&tree, empty).as_static_value().expect("a static value");
    assert_eq!(value.text(), "");
    assert!(value.is_falsy());
    assert!(!value.is_null_or_undefined());
}

#[test]
fn static_value_of_a_boolean_literal() {
    let mut jsx = Jsx::new();
    let yes = jsx.boolean(true);
    let no = jsx.boolean(false);
    let tree = jsx.finish();
    let value = expression(&tree, yes).as_static_value().expect("a static value");
    assert!(matches!(value, StaticValue::Boolean(_)));
    assert_eq!(value.text(), "true");
    assert!(!value.is_falsy());
    let value = expression(&tree, no).as_static_value().expect("a static value");
    assert_eq!(value.text(), "false");
    assert!(value.is_falsy());
    assert!(!value.is_null_or_undefined());
}

#[test]
fn static_value_of_null_and_undefined() {
    let mut jsx = Jsx::new();
    let null = jsx.null();
    let undefined = jsx.identifier("undefined");
    let tree = jsx.finish();
    let value = expression(&tree, null).as_static_value().expect("a static value");
    assert!(matches!(value, StaticValue::Null(_)));
    assert_eq!(value.text(), "null");
    assert!(value.is_falsy());
    assert!(value.is_null_or_undefined());
    let value = expression(&tree, undefined).as_static_value().expect("a static value");
    assert!(matches!(value, StaticValue::Undefined(_)));
    assert_eq!(value.text(), "undefined");
    assert!(value.is_falsy());
    assert!(value.is_null_or_undefined());
}

#[test]
fn other_expressions_have_no_static_value() {
    let mut jsx = Jsx::new();
    let identifier = jsx.identifier("cond");
    let almost = jsx.identifier("Undefined");
    let call = jsx.other_expression();
    let tree = jsx.finish();
    assert!(expression(&tree, identifier).as_static_value().is_none());
    assert!(expression(&tree, almost).as_static_value().is_none());
    assert!(expression(&tree, call).as_static_value().is_none());
}

#[test]
fn a_literal_without_its_token_has_no_static_value() {
    let mut jsx = Jsx::new();
    let string = jsx.node(SyntaxKind::JsStringLiteralExpression, vec![None]);
    let boolean = jsx.node(SyntaxKind::JsBooleanLiteralExpression, vec![]);
    let null = jsx.node(SyntaxKind::JsNullLiteralExpression, vec![None]);
    let identifier = jsx.node(SyntaxKind::JsIdentifierExpression, vec![None]);
    let wrong = jsx.token(SyntaxKind::NullKw, "null");
    let mixed = jsx.node(SyntaxKind::JsBooleanLiteralExpression, vec![Some(wrong)]);
    let reference = jsx.node(SyntaxKind::JsReferenceIdentifier, vec![None]);
    let nameless = jsx.node(SyntaxKind::JsIdentifierExpression, vec![Some(reference)]);
    let tree = jsx.finish();
    for index in [string, boolean, null, identifier, mixed, nameless] {
        assert!(expression(&tree, index).as_static_value().is_none());
    }
}

#[test]
fn static_value_of_an_attribute() {
    let mut jsx = Jsx::new();
    let shorthand = jsx.named("disabled", None);
    let string = jsx.named_string("type", "\"button\"");
    let yes = jsx.boolean(true);
    let boolean = jsx.named_expression("checked", yes);
    let cond = jsx.identifier("cond");
    let dynamic = jsx.named_expression("hidden", cond);
    let icon = jsx.name("img");
    let icon = jsx.self_closing(Some(icon), vec![]);
    let element = jsx.named("icon", Some(icon));
    let empty_braces = jsx.braces(None);
    let empty = jsx.named("title", Some(empty_braces));
    let tree = {
        jsx.attributes(vec![shorthand, string, boolean, dynamic, element, empty]);
        jsx.finish()
    };
    assert!(attribute(&tree, shorthand).as_static_value().is_none());
    assert_eq!(attribute(&tree, string).as_static_value().expect("a static value").text(), "button");
    assert_eq!(attribute(&tree, boolean).as_static_value().expect("a static value").text(), "true");
    assert!(attribute(&tree, dynamic).as_static_value().is_none());
    assert!(attribute(&tree, element).as_static_value().is_none());
    assert!(attribute(&tree, empty).as_static_value().is_none());
}

#[test]
fn static_value_of_an_attribute_value() {
    let mut jsx = Jsx::new();
    let string = jsx.named_string("type", "''");
    let null = jsx.null();
    let nothing = jsx.named_expression("value", null);
    let tree = {
        jsx.attributes(vec![string, nothing]);
        jsx.finish()
    };
    let value = attribute(&tree, string).initializer().expect("an initializer").value().expect("a value");
    assert!(matches!(value, AnyJsxAttributeValue::JsxString(_)));
    assert!(value.as_jsx_string().is_some());
    assert!(value.as_static_value().expect("a static value").is_falsy());
    assert!(!value.is_value_null_or_undefined());
    let value = attribute(&tree, nothing).initializer().expect("an initializer").value().expect("a value");
    assert!(matches!(value, AnyJsxAttributeValue::JsxExpressionAttributeValue(_)));
    assert!(value.as_jsx_string().is_none());
    assert!(value.is_value_null_or_undefined());
}

#[test]
fn only_null_and_undefined_are_null_or_undefined() {
    let mut jsx = Jsx::new();
    let null = jsx.null();
    let null = jsx.named_expression("a", null);
    let undefined = jsx.identifier("undefined");
    let undefined = jsx.named_expression("b", undefined);
    let no = jsx.boolean(false);
    let no = jsx.named_expression("c", no);
    let empty = jsx.named_string("d", "\"\"");
    let cond = jsx.identifier("cond");
    let cond = jsx.named_expression("e", cond);
    let shorthand = jsx.named("f", None);
    let tree = {
        jsx.attributes(vec![null, undefined, no, empty, cond, shorthand]);
        jsx.finish()
    };
    assert!(attribute(&tree, null).is_value_null_or_undefined());
    assert!(attribute(&tree, undefined).is_value_null_or_undefined());
    assert!(!attribute(&tree, no).is_value_null_or_undefined());
    assert!(!attribute(&tree, empty).is_value_null_or_undefined());
    assert!(!attribute(&tree, cond).is_value_null_or_undefined());
    assert!(!attribute(&tree, shorthand).is_value_null_or_undefined());
}

#[test]
fn an_initializer_without_a_value_is_a_missing_required_child() {
    let mut jsx = Jsx::new();
    let name = jsx.name("type");
    let initializer = jsx.node(SyntaxKind::JsxAttributeInitializerClause, vec![None, None]);
    let lone = jsx.node(SyntaxKind::JsxAttribute, vec![Some(name), Some(initializer)]);
    let tree = jsx.finish();
    let initializer = attribute(&tree, lone).initializer().expect("an initializer");
    assert_eq!(initializer.value().err(), Some(SyntaxError::MissingRequiredChild));
    assert!(attribute(&tree, lone).as_static_value().is_none());
}
