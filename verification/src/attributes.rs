//! Questions about attributes: what an attribute is called, what its value is
//! known to be, where it stands in its list, and whether a later spread can
//! override it.
//!
//! The order of an attribute list is the order of the source and is never
//! changed. Names may repeat in a list; a lookup by name answers with the
//! first attribute of that name.
use vstd::prelude::*;
use crate::nodes::{
    AnyJsxAttribute, AnyJsxAttributeName, AnyJsxAttributeValue, AnyJsxElementName, JsxAttribute, JsxAttributeList,
    JsxString,
};
use crate::static_value::StaticValue;
use crate::syntax::{JsSyntaxToken, SyntaxError, SyntaxResult};

verus! {

/// The largest number of names that one batch lookup takes.
pub const MAX_LOOKUP_NAMES: usize = 16;

impl<'a> JsxString<'a> {
    /// The text of the string without its quotes, or the error of the missing token.
    pub open spec fn spec_inner_string_text(&self) -> SyntaxResult<Seq<char>> {
        match self.value_token() {
            Ok(token) => Ok(token.spec_inner_string_text()),
            Err(error) => Err(error),
        }
    }

    /// The text of the string without its quotes.
    pub fn inner_string_text(&self) -> (r: SyntaxResult<&'a str>)
        ensures
            match r {
                Ok(text) => self.spec_inner_string_text() == Ok::<Seq<char>, SyntaxError>(text@),
                Err(error) => self.spec_inner_string_text() == Err::<Seq<char>, SyntaxError>(error),
            },
    {
        match self.value_token() {
            Ok(token) => Ok(token.inner_string_text()),
            Err(error) => Err(error),
        }
    }
}

impl<'a> AnyJsxElementName<'a> {
    /// The token that names the element: the name itself, the member of
    /// `Foo.Bar`, or the part after the colon of `ns:name`.
    pub open spec fn spec_name_value_token(&self) -> Option<JsSyntaxToken<'a>> {
        match self {
            AnyJsxElementName::JsxMemberName(member) => match member.member() {
                Ok(name) => name.value_token().ok(),
                Err(_) => None,
            },
            AnyJsxElementName::JsxName(name) => name.value_token().ok(),
            AnyJsxElementName::JsxNamespaceName(name) => match name.name() {
                Ok(name) => name.value_token().ok(),
                Err(_) => None,
            },
            AnyJsxElementName::JsxReferenceIdentifier(name) => name.value_token().ok(),
        }
    }

    /// The token that names the element, where it is there.
    #[verifier::when_used_as_spec(spec_name_value_token)]
    pub fn name_value_token(&self) -> (r: Option<JsSyntaxToken<'a>>)
        ensures
            r == self.spec_name_value_token(),
    {
        match self {
            AnyJsxElementName::JsxMemberName(member) => match member.member() {
                Ok(name) => name.value_token().ok(),
                Err(_) => None,
            },
            AnyJsxElementName::JsxName(name) => name.value_token().ok(),
            AnyJsxElementName::JsxNamespaceName(name) => match name.name() {
                Ok(name) => name.value_token().ok(),
                Err(_) => None,
            },
            AnyJsxElementName::JsxReferenceIdentifier(name) => name.value_token().ok(),
        }
    }
}

impl<'a> AnyJsxAttributeName<'a> {
    /// The token of the name proper: for `ns:name`, the part after the colon.
    pub open spec fn spec_name_token(&self) -> SyntaxResult<JsSyntaxToken<'a>> {
        match self {
            AnyJsxAttributeName::JsxName(name) => name.value_token(),
            AnyJsxAttributeName::JsxNamespaceName(name) => match name.name() {
                Ok(name) => name.value_token(),
                Err(error) => Err(error),
            },
        }
    }

    /// The token of the name proper: for `ns:name`, the part after the colon.
    #[verifier::when_used_as_spec(spec_name_token)]
    pub fn name_token(&self) -> (r: SyntaxResult<JsSyntaxToken<'a>>)
        ensures
            r == self.spec_name_token(),
    {
        match self {
            AnyJsxAttributeName::JsxName(name) => name.value_token(),
            AnyJsxAttributeName::JsxNamespaceName(name) => match name.name() {
                Ok(name) => name.value_token(),
                Err(error) => Err(error),
            },
        }
    }

    /// The token of the namespace: for `ns:name`, the part before the colon.
    pub open spec fn spec_namespace_token(&self) -> Option<JsSyntaxToken<'a>> {
        match self {
            AnyJsxAttributeName::JsxName(_) => None,
            AnyJsxAttributeName::JsxNamespaceName(name) => match name.namespace() {
                Ok(namespace) => namespace.value_token().ok(),
                Err(_) => None,
            },
        }
    }

    /// The token of the namespace; nothing for a plain name.
    #[verifier::when_used_as_spec(spec_namespace_token)]
    pub fn namespace_token(&self) -> (r: Option<JsSyntaxToken<'a>>)
        ensures
            r == self.spec_namespace_token(),
    {
        match self {
            AnyJsxAttributeName::JsxName(_) => None,
            AnyJsxAttributeName::JsxNamespaceName(name) => match name.namespace() {
                Ok(namespace) => namespace.value_token().ok(),
                Err(_) => None,
            },
        }
    }
}

impl<'a> AnyJsxAttributeValue<'a> {
    /// What the value is statically known to be: a string is itself, an
    /// expression in braces is what the expression is, and an element is
    /// never statically known.
    pub open spec fn spec_as_static_value(&self) -> Option<StaticValue<'a>> {
        match self {
            AnyJsxAttributeValue::AnyJsxTag(_) => None,
            AnyJsxAttributeValue::JsxExpressionAttributeValue(value) => match value.expression() {
                Ok(expression) => expression.as_static_value(),
                Err(_) => None,
            },
            AnyJsxAttributeValue::JsxString(string) => match string.value_token() {
                Ok(token) => Some(StaticValue::String(token)),
                Err(_) => None,
            },
        }
    }

    /// What the value is statically known to be, where it is.
    #[verifier::when_used_as_spec(spec_as_static_value)]
    pub fn as_static_value(&self) -> (r: Option<StaticValue<'a>>)
        ensures
            r == self.spec_as_static_value(),
    {
        match self {
            AnyJsxAttributeValue::AnyJsxTag(_) => None,
            AnyJsxAttributeValue::JsxExpressionAttributeValue(value) => match value.expression() {
                Ok(expression) => expression.as_static_value(),
                Err(_) => None,
            },
            AnyJsxAttributeValue::JsxString(string) => match string.value_token() {
                Ok(token) => Some(StaticValue::String(token)),
                Err(_) => None,
            },
        }
    }

    pub open spec fn spec_is_value_null_or_undefined(&self) -> bool {
        match self.as_static_value() {
            Some(value) => value.is_null_or_undefined(),
            None => false,
        }
    }

    /// Whether the value is statically known to be `null` or `undefined`.
    #[verifier::when_used_as_spec(spec_is_value_null_or_undefined)]
    pub fn is_value_null_or_undefined(&self) -> (r: bool)
        ensures
            r == self.spec_is_value_null_or_undefined(),
    {
        match self.as_static_value() {
            Some(value) => value.is_null_or_undefined(),
            None => false,
        }
    }
}

impl<'a> JsxAttribute<'a> {
    /// What the value of the attribute is statically known to be; nothing
    /// for an attribute without a value.
    pub open spec fn spec_as_static_value(&self) -> Option<StaticValue<'a>> {
        match self.initializer() {
            Some(initializer) => match initializer.value() {
                Ok(value) => value.as_static_value(),
                Err(_) => None,
            },
            None => None,
        }
    }

    /// What the value of the attribute is statically known to be, where it is.
    #[verifier::when_used_as_spec(spec_as_static_value)]
    pub fn as_static_value(&self) -> (r: Option<StaticValue<'a>>)
        ensures
            r == self.spec_as_static_value(),
    {
        match self.initializer() {
            Some(initializer) => match initializer.value() {
                Ok(value) => value.as_static_value(),
                Err(_) => None,
            },
            None => None,
        }
    }

    pub open spec fn spec_is_value_null_or_undefined(&self) -> bool {
        match self.as_static_value() {
            Some(value) => value.is_null_or_undefined(),
            None => false,
        }
    }

    /// Whether the value of the attribute is statically known to be `null` or `undefined`.
    #[verifier::when_used_as_spec(spec_is_value_null_or_undefined)]
    pub fn is_value_null_or_undefined(&self) -> (r: bool)
        ensures
            r == self.spec_is_value_null_or_undefined(),
    {
        match self.as_static_value() {
            Some(value) => value.is_null_or_undefined(),
            None => false,
        }
    }

    /// The token of the attribute's name: for `ns:name`, the part after the colon.
    pub open spec fn spec_name_value_token(&self) -> Option<JsSyntaxToken<'a>> {
        match self.name() {
            Ok(name) => name.name_token().ok(),
            Err(_) => None,
        }
    }

    /// The token of the attribute's name, where it is there.
    #[verifier::when_used_as_spec(spec_name_value_token)]
    pub fn name_value_token(&self) -> (r: Option<JsSyntaxToken<'a>>)
        ensures
            r == self.spec_name_value_token(),
    {
        match self.name() {
            Ok(name) => name.name_token().ok(),
            Err(_) => None,
        }
    }

    /// The name by which a lookup finds the attribute: the text of its name
    /// token without trivia. An attribute with a namespace, or one whose name
    /// is missing, is found under no name.
    pub open spec fn spec_plain_name(&self) -> Option<Seq<char>> {
        match self.name() {
            Ok(AnyJsxAttributeName::JsxName(name)) => match name.value_token() {
                Ok(token) => Some(token.spec_text_trimmed()),
                Err(_) => None,
            },
            _ => None,
        }
    }

    /// The name by which a lookup finds the attribute, where it has one.
    pub fn plain_name(&self) -> (r: Option<&'a str>)
        ensures
            match r {
                Some(text) => self.spec_plain_name() == Some(text@),
                None => self.spec_plain_name() is None,
            },
    {
        match self.name() {
            Ok(AnyJsxAttributeName::JsxName(name)) => match name.value_token() {
                Ok(token) => Some(token.text_trimmed()),
                Err(_) => None,
            },
            _ => None,
        }
    }

    /// Whether a lookup of `name` finds this attribute.
    pub fn is_named(&self, name: &str) -> (r: bool)
        ensures
            r == (self.spec_plain_name() == Some(name@)),
    {
        match self.plain_name() {
            Some(text) => *text == *name,
            None => false,
        }
    }
}

/// Whether `attribute` is a named attribute that a lookup of `name` finds.
/// A spread attribute has no name and is never found.
pub open spec fn is_named(attribute: AnyJsxAttribute<'_>, name: Seq<char>) -> bool {
    match attribute {
        AnyJsxAttribute::JsxAttribute(attribute) => attribute.spec_plain_name() == Some(name),
        AnyJsxAttribute::JsxSpreadAttribute(_) => false,
    }
}

/// Position `i` holds the first attribute of `attributes` that is named `name`.
pub open spec fn is_first_named(attributes: Seq<AnyJsxAttribute<'_>>, name: Seq<char>, i: int) -> bool {
    &&& 0 <= i < attributes.len()
    &&& is_named(attributes[i], name)
    &&& forall|j: int| 0 <= j < i ==> !is_named(#[trigger] attributes[j], name)
}

/// The position of the first attribute named `name`, if there is one.
pub open spec fn first_named(attributes: Seq<AnyJsxAttribute<'_>>, name: Seq<char>) -> Option<int> {
    if exists|i: int| is_first_named(attributes, name, i) {
        Some(choose|i: int| is_first_named(attributes, name, i))
    } else {
        None
    }
}

/// The names of one batch lookup are in order: no more than
/// [`MAX_LOOKUP_NAMES`] of them, and no two the same.
pub open spec fn are_lookup_names(names: Seq<&str>) -> bool {
    &&& names.len() <= MAX_LOOKUP_NAMES
    &&& forall|i: int, j: int| 0 <= i < j < names.len() ==> (#[trigger] names[i])@ != (#[trigger] names[j])@
}

/// Names of which two are the same cannot be looked up in one batch.
pub proof fn lemma_repeated_name_refused(names: Seq<&str>, i: int, j: int)
    requires
        0 <= i < names.len(),
        0 <= j < names.len(),
        i != j,
        names[i]@ == names[j]@,
    ensures
        !are_lookup_names(names),
{
}

/// How many of the entries are still empty.
spec fn count_missing<T>(found: Seq<Option<T>>) -> nat
    decreases found.len(),
{
    if found.len() == 0 {
        0
    } else {
        count_missing(found.drop_last()) + if found.last() is None {
            1nat
        } else {
            0nat
        }
    }
}

/// Nothing has been found yet: every entry is missing.
proof fn lemma_count_missing_all<T>(found: Seq<Option<T>>)
    requires
        forall|i: int| 0 <= i < found.len() ==> #[trigger] found[i] is None,
    ensures
        count_missing(found) == found.len(),
    decreases found.len(),
{
    if found.len() > 0 {
        lemma_count_missing_all(found.drop_last());
    }
}

/// Filling an empty entry leaves one entry less missing.
proof fn lemma_count_missing_fill<T>(found: Seq<Option<T>>, i: int, value: T)
    requires
        0 <= i < found.len(),
        found[i] is None,
    ensures
        count_missing(found) >= 1,
        count_missing(found.update(i, Some(value))) == count_missing(found) - 1,
    decreases found.len(),
{
    let filled = found.update(i, Some(value));
    if i == found.len() - 1 {
        assert(filled.drop_last() =~= found.drop_last());
    } else {
        assert(filled.drop_last() =~= found.drop_last().update(i, Some(value)));
        lemma_count_missing_fill(found.drop_last(), i, value);
    }
}

/// Where nothing is missing, every entry is filled.
proof fn lemma_count_missing_none<T>(found: Seq<Option<T>>)
    requires
        count_missing(found) == 0,
    ensures
        forall|i: int| 0 <= i < found.len() ==> #[trigger] found[i] is Some,
    decreases found.len(),
{
    if found.len() > 0 {
        lemma_count_missing_none(found.drop_last());
        assert forall|i: int| 0 <= i < found.len() implies #[trigger] found[i] is Some by {
            if i < found.len() - 1 {
                assert(found.drop_last()[i] is Some);
            }
        }
    }
}

/// There is only one first attribute of a name: where position `i` holds it,
/// that is the position [`first_named`] gives.
pub proof fn lemma_first_named_is(attributes: Seq<AnyJsxAttribute<'_>>, name: Seq<char>, i: int)
    requires
        is_first_named(attributes, name, i),
    ensures
        first_named(attributes, name) == Some(i),
{
    let chosen = choose|k: int| is_first_named(attributes, name, k);
    assert(is_first_named(attributes, name, chosen));
    if chosen < i {
        assert(!is_named(attributes[chosen], name));
    }
    if i < chosen {
        assert(!is_named(attributes[i], name));
    }
}

/// Where no attribute is named `name`, [`first_named`] gives nothing, and the other way round.
pub proof fn lemma_first_named_none(attributes: Seq<AnyJsxAttribute<'_>>, name: Seq<char>)
    ensures
        first_named(attributes, name) is None <==> forall|j: int|
            0 <= j < attributes.len() ==> !is_named(#[trigger] attributes[j], name),
{
    if exists|j: int| 0 <= j < attributes.len() && is_named(#[trigger] attributes[j], name) {
        let j = choose|j: int| 0 <= j < attributes.len() && is_named(#[trigger] attributes[j], name);
        lemma_some_first_named(attributes, name, j);
    }
    if first_named(attributes, name) is Some {
        let i = choose|i: int| is_first_named(attributes, name, i);
        assert(is_named(attributes[i], name));
    }
}

/// Where some attribute up to position `upto` is named `name`, one of them is the first.
proof fn lemma_some_first_named(attributes: Seq<AnyJsxAttribute<'_>>, name: Seq<char>, upto: int)
    requires
        0 <= upto < attributes.len(),
        is_named(attributes[upto], name),
    ensures
        exists|i: int| is_first_named(attributes, name, i),
    decreases upto,
{
    if exists|j: int| 0 <= j < upto && is_named(#[trigger] attributes[j], name) {
        let j = choose|j: int| 0 <= j < upto && is_named(#[trigger] attributes[j], name);
        lemma_some_first_named(attributes, name, j);
    } else {
        assert(is_first_named(attributes, name, upto));
    }
}

/// Enters `attribute` for the first of `names` that equals `name` and has
/// nothing entered yet, and says which one that was.
fn fill_missing<'a, const N: usize>(
    results: &mut [Option<JsxAttribute<'a>>; N],
    names: &[&str; N],
    name: &str,
    attribute: JsxAttribute<'a>,
) -> (slot: Option<usize>)
    ensures
        match slot {
            Some(s) => {
                &&& s < N
                &&& old(results)@[s as int] is None
                &&& names@[s as int]@ == name@
                &&& final(results)@ == old(results)@.update(s as int, Some(attribute))
            },
            None => {
                &&& final(results)@ == old(results)@
                &&& forall|s: int|
                    0 <= s < N ==> !((#[trigger] old(results)@[s]) is None && names@[s]@ == name@)
            },
        },
{
    let mut i: usize = 0;
    while i < N
        invariant
            i <= N,
            N == names@.len(),
            N == results@.len(),
            results@ == old(results)@,
            forall|s: int| 0 <= s < i ==> !((#[trigger] results@[s]) is None && names@[s]@ == name@),
        decreases N - i,
    {
        if results[i].is_none() && *names[i] == *name {
            results[i] = Some(attribute);
            assert(results@ =~= old(results)@.update(i as int, Some(attribute)));
            return Some(i);
        }
        i += 1;
    }
    None
}

impl<'a> JsxAttributeList<'a> {
    /// The first attribute named `name`, if there is one.
    pub open spec fn spec_find_by_name(&self, name: Seq<char>) -> Option<JsxAttribute<'a>> {
        match first_named(self.items(), name) {
            Some(i) => self.items()[i].as_jsx_attribute(),
            None => None,
        }
    }

    /// A spread attribute stands somewhere after `attribute` in the list.
    pub open spec fn spec_has_trailing_spread_prop(&self, attribute: JsxAttribute<'a>) -> bool {
        exists|i: int, j: int|
            #![trigger self.items()[i], self.items()[j]]
            0 <= i < j < self.items().len() && self.items()[i] == AnyJsxAttribute::JsxAttribute(attribute)
                && self.items()[j] is JsxSpreadAttribute
    }

    /// The first attribute whose name is `name_to_lookup`, or nothing where
    /// no attribute has that name. Spread attributes and attributes with a
    /// namespace are passed over. The lookup itself never fails.
    pub fn find_by_name(&self, name_to_lookup: &str) -> (r: SyntaxResult<Option<JsxAttribute<'a>>>)
        ensures
            r == Ok::<Option<JsxAttribute<'a>>, SyntaxError>(self.spec_find_by_name(name_to_lookup@)),
            r matches Ok(Some(attribute)) ==> attribute.syntax().same_tree(self.syntax()),
    {
        proof {
            use_type_invariant(self);
        }
        let n: usize = self.len();
        let mut i: usize = 0;
        while i < n
            invariant
                n == self.items().len(),
                i <= n,
                self.wf(),
                forall|j: int| 0 <= j < i ==> !is_named(#[trigger] self.items()[j], name_to_lookup@),
            decreases n - i,
        {
            if let Some(AnyJsxAttribute::JsxAttribute(attribute)) = self.get(i) {
                if attribute.is_named(name_to_lookup) {
                    proof {
                        lemma_first_named_is(self.items(), name_to_lookup@, i as int);
                        self.lemma_item(i as int);
                    }
                    return Ok(Some(attribute));
                }
            }
            i += 1;
        }
        proof {
            lemma_first_named_none(self.items(), name_to_lookup@);
        }
        Ok(None)
    }

    /// Whether `names` can be looked up in one batch.
    pub fn accepts_names<const N: usize>(names: &[&str; N]) -> (r: bool)
        ensures
            r == are_lookup_names(names@),
    {
        if N > MAX_LOOKUP_NAMES {
            return false;
        }
        let mut i: usize = 0;
        while i < N
            invariant
                i <= N,
                N == names@.len(),
                forall|a: int, b: int| 0 <= a < b < i ==> (#[trigger] names@[a])@ != (#[trigger] names@[b])@,
            decreases N - i,
        {
            let mut j: usize = 0;
            while j < i
                invariant
                    j <= i < N,
                    N == names@.len(),
                    forall|a: int| 0 <= a < j ==> (#[trigger] names@[a])@ != names@[i as int]@,
                decreases i - j,
            {
                if *names[j] == *names[i] {
                    return false;
                }
                j += 1;
            }
            i += 1;
        }
        true
    }

    /// What a pass over the first `upto` attributes knows of the name `name`:
    /// either it has found the attribute that a lookup of `name` answers with,
    /// or none of those attributes is named `name`.
    pub open spec fn is_found_upto(&self, name: Seq<char>, found: Option<JsxAttribute<'a>>, upto: int) -> bool {
        match found {
            Some(attribute) => self.spec_find_by_name(name) == Some(attribute),
            None => forall|j: int| 0 <= j < upto ==> !is_named(#[trigger] self.items()[j], name),
        }
    }

    /// For each of `names_to_lookup` the first attribute of that name, found
    /// in one pass over the list that ends as soon as every name is found.
    ///
    /// The names must be no more than [`MAX_LOOKUP_NAMES`] and all different;
    /// [`JsxAttributeList::checked_find_by_names`] tests that first.
    pub fn find_by_names<const N: usize>(&self, names_to_lookup: [&str; N]) -> (r: [Option<JsxAttribute<'a>>; N])
        requires
            are_lookup_names(names_to_lookup@),
        ensures
            forall|i: int| 0 <= i < N ==> #[trigger] r@[i] == self.spec_find_by_name(names_to_lookup@[i]@),
    {
        let mut results: [Option<JsxAttribute<'a>>; N] = [None;N];
        let mut missing: usize = N;
        let n: usize = self.len();
        let mut k: usize = 0;
        proof {
            lemma_count_missing_all(results@);
        }
        while k < n && missing > 0
            invariant
                n == self.items().len(),
                k <= n,
                N == names_to_lookup@.len(),
                N == results@.len(),
                are_lookup_names(names_to_lookup@),
                missing == count_missing(results@),
                forall|i: int| 0 <= i < N ==> self.is_found_upto(names_to_lookup@[i]@, #[trigger] results@[i], k as int),
            decreases n - k,
        {
            let ghost before = results@;
            let ghost mut filled: Option<usize> = None;
            if let Some(AnyJsxAttribute::JsxAttribute(attribute)) = self.get(k) {
                if let Some(name) = attribute.plain_name() {
                    let slot = fill_missing(&mut results, &names_to_lookup, name, attribute);
                    if let Some(slot) = slot {
                        proof {
                            lemma_count_missing_fill(before, slot as int, attribute);
                            assert(is_first_named(self.items(), name@, k as int));
                            lemma_first_named_is(self.items(), name@, k as int);
                            filled = Some(slot);
                        }
                        missing -= 1;
                    }
                }
            }
            proof {
                assert forall|i: int| 0 <= i < N implies self.is_found_upto(
                    names_to_lookup@[i]@,
                    #[trigger] results@[i],
                    k + 1,
                ) by {
                    assert(self.is_found_upto(names_to_lookup@[i]@, before[i], k as int));
                    if filled != Some(i as usize) {
                        assert(results@[i] == before[i]);
                        assert(before[i] is None ==> !is_named(self.items()[k as int], names_to_lookup@[i]@));
                    }
                }
            }
            k += 1;
        }
        proof {
            assert forall|i: int| 0 <= i < N implies #[trigger] results@[i] == self.spec_find_by_name(
                names_to_lookup@[i]@,
            ) by {
                assert(self.is_found_upto(names_to_lookup@[i]@, results@[i], k as int));
                if missing == 0 {
                    lemma_count_missing_none(results@);
                }
                if results@[i] is None {
                    lemma_first_named_none(self.items(), names_to_lookup@[i]@);
                }
            }
        }
        results
    }

    /// [`JsxAttributeList::find_by_names`] behind a test of its names: where
    /// they are more than [`MAX_LOOKUP_NAMES`] or two of them are the same,
    /// the lookup is refused before the list is looked at.
    pub fn checked_find_by_names<const N: usize>(&self, names_to_lookup: [&str; N]) -> (r: Option<
        [Option<JsxAttribute<'a>>; N],
    >)
        ensures
            r is Some <==> are_lookup_names(names_to_lookup@),
            r matches Some(found) ==> forall|i: int|
                0 <= i < N ==> #[trigger] found@[i] == self.spec_find_by_name(names_to_lookup@[i]@),
    {
        if Self::accepts_names(&names_to_lookup) {
            Some(self.find_by_names(names_to_lookup))
        } else {
            None
        }
    }

    /// Whether a spread attribute stands after `current_attribute` in the
    /// list. Such a spread can replace the value of the attribute at run
    /// time, so nothing read off the attribute itself is then reliable.
    ///
    /// An attribute that is not in the list has no spread after it. The
    /// attribute must be a view into the tree of the list: within one tree a
    /// node is known by its position, and nothing here can tell two trees apart.
    pub fn has_trailing_spread_prop(&self, current_attribute: &JsxAttribute<'a>) -> (r: bool)
        requires
            self.syntax().same_tree(current_attribute.syntax()),
        ensures
            r == self.spec_has_trailing_spread_prop(*current_attribute),
    {
        proof {
            use_type_invariant(self);
        }
        let n: usize = self.len();
        let mut current_attribute_found: bool = false;
        let mut k: usize = 0;
        while k < n
            invariant
                n == self.items().len(),
                k <= n,
                self.wf(),
                self.syntax().same_tree(current_attribute.syntax()),
                current_attribute_found <==> exists|i: int|
                    0 <= i < k && #[trigger] self.items()[i] == AnyJsxAttribute::JsxAttribute(*current_attribute),
                forall|i: int, j: int|
                    #![trigger self.items()[i], self.items()[j]]
                    0 <= i < j < k ==> !(self.items()[i] == AnyJsxAttribute::JsxAttribute(*current_attribute)
                        && self.items()[j] is JsxSpreadAttribute),
            decreases n - k,
        {
            match self.get(k) {
                Some(AnyJsxAttribute::JsxAttribute(attribute)) => {
                    if attribute.syntax().index() == current_attribute.syntax().index() {
                        proof {
                            self.lemma_item(k as int);
                        }
                        assert(attribute.syntax() == current_attribute.syntax());
                        current_attribute_found = true;
                    }
                },
                Some(AnyJsxAttribute::JsxSpreadAttribute(_)) => {
                    if current_attribute_found {
                        proof {
                            let i = choose|i: int|
                                0 <= i < k && #[trigger] self.items()[i] == AnyJsxAttribute::JsxAttribute(
                                    *current_attribute,
                                );
                            assert(self.items()[i] == AnyJsxAttribute::JsxAttribute(*current_attribute)
                                && self.items()[k as int] is JsxSpreadAttribute);
                        }
                        return true;
                    }
                },
                None => {},
            }
            k += 1;
        }
        false
    }

    /// A lookup answers with the first attribute of the name, or with nothing
    /// where no attribute has the name. What it finds is a named attribute of
    /// the list: a spread attribute is never found.
    pub proof fn lemma_find_by_name_first(&self, name: Seq<char>)
        requires
            self.wf(),
        ensures
            match self.spec_find_by_name(name) {
                Some(attribute) => exists|i: int|
                    {
                        &&& is_first_named(self.items(), name, i)
                        &&& #[trigger] self.items()[i] == AnyJsxAttribute::JsxAttribute(attribute)
                    },
                None => forall|i: int| 0 <= i < self.items().len() ==> !is_named(#[trigger] self.items()[i], name),
            },
            forall|i: int|
                0 <= i < self.items().len() && (#[trigger] self.items()[i]) is JsxSpreadAttribute ==> first_named(
                    self.items(),
                    name,
                ) != Some(i),
    {
        lemma_first_named_none(self.items(), name);
        if first_named(self.items(), name) is Some {
            let i = choose|i: int| is_first_named(self.items(), name, i);
            assert(self.items()[i] == AnyJsxAttribute::JsxAttribute(self.spec_find_by_name(name).unwrap()));
        }
    }

    /// Where exactly one attribute of the list is named `name`, a lookup of `name` answers with it.
    pub proof fn lemma_find_by_name_only(&self, name: Seq<char>, at: int)
        requires
            self.wf(),
            0 <= at < self.items().len(),
            is_named(self.items()[at], name),
            forall|j: int| 0 <= j < self.items().len() && j != at ==> !is_named(#[trigger] self.items()[j], name),
        ensures
            self.spec_find_by_name(name) is Some,
            self.items()[at] == AnyJsxAttribute::JsxAttribute(self.spec_find_by_name(name).unwrap()),
    {
        assert(is_first_named(self.items(), name, at));
        lemma_first_named_is(self.items(), name, at);
    }

    /// Where no attribute of the list is named `name`, as in an empty list, a
    /// lookup of `name` answers with nothing.
    pub proof fn lemma_find_by_name_none(&self, name: Seq<char>)
        requires
            forall|j: int| 0 <= j < self.items().len() ==> !is_named(#[trigger] self.items()[j], name),
        ensures
            self.spec_find_by_name(name) is None,
    {
        lemma_first_named_none(self.items(), name);
    }

    /// The attribute at position `at` has a trailing spread exactly when a
    /// spread attribute stands at a position after `at`.
    pub proof fn lemma_trailing_spread_by_position(&self, attribute: JsxAttribute<'a>, at: int)
        requires
            self.wf(),
            0 <= at < self.items().len(),
            self.items()[at] == AnyJsxAttribute::JsxAttribute(attribute),
        ensures
            self.spec_has_trailing_spread_prop(attribute) <==> exists|j: int|
                at < j < self.items().len() && (#[trigger] self.items()[j]) is JsxSpreadAttribute,
    {
        if self.spec_has_trailing_spread_prop(attribute) {
            let (i, j) = choose|i: int, j: int|
                #![trigger self.items()[i], self.items()[j]]
                0 <= i < j < self.items().len() && self.items()[i] == AnyJsxAttribute::JsxAttribute(attribute)
                    && self.items()[j] is JsxSpreadAttribute;
            if i != at {
                self.lemma_items_distinct(i, at);
            }
            assert(at < j < self.items().len() && self.items()[j] is JsxSpreadAttribute);
        }
        if exists|j: int| at < j < self.items().len() && (#[trigger] self.items()[j]) is JsxSpreadAttribute {
            let j = choose|j: int| at < j < self.items().len() && (#[trigger] self.items()[j]) is JsxSpreadAttribute;
            assert(self.items()[at] == AnyJsxAttribute::JsxAttribute(attribute)
                && self.items()[j] is JsxSpreadAttribute);
        }
    }

    /// The last attribute of a list has no trailing spread, whatever stands before it.
    pub proof fn lemma_last_has_no_trailing_spread(&self, attribute: JsxAttribute<'a>)
        requires
            self.wf(),
            self.items().len() > 0,
            self.items().last() == AnyJsxAttribute::JsxAttribute(attribute),
        ensures
            !self.spec_has_trailing_spread_prop(attribute),
    {
        self.lemma_trailing_spread_by_position(attribute, self.items().len() - 1);
    }
}

} // verus!
