//! The declared table set: how a declaration is checked and what it describes.

use vstd::prelude::*;

verus! {

/// The attribute by which a declared table selects its options function.
pub open spec fn override_attribute_name() -> Seq<char> {
    "default_options_override_fn"@
}

/// The options function of a table that selects none.
pub open spec fn default_options_function_name() -> Seq<char> {
    "typed_store::rocks::default_rocksdb_options"@
}

pub fn override_attribute() -> (r: String)
    ensures
        r@ == override_attribute_name(),
{
    "default_options_override_fn".to_owned()
}

pub fn default_options_function() -> (r: String)
    ensures
        r@ == default_options_function_name(),
{
    "typed_store::rocks::default_rocksdb_options".to_owned()
}

/// One token of an attribute's text.
#[derive(Debug, Clone, PartialEq, Eq)]
pub enum Token {
    /// An identifier, as written.
    Ident(String),
    /// One punctuation character.
    Punct(char),
    /// A literal, as written, with its quotes and its suffix.
    Literal(String),
    /// Tokens between a pair of brackets.
    Group,
}

/// A `Token` with its text as a sequence of characters.
pub enum TokenShape {
    Ident(Seq<char>),
    Punct(char),
    Literal(Seq<char>),
    Group,
}

impl View for Token {
    type V = TokenShape;

    open spec fn view(&self) -> TokenShape {
        match self {
            Token::Ident(id) => TokenShape::Ident(id@),
            Token::Punct(c) => TokenShape::Punct(*c),
            Token::Literal(l) => TokenShape::Literal(l@),
            Token::Group => TokenShape::Group,
        }
    }
}

/// The tokens in `v`, each by its view.
pub open spec fn shapes(v: Seq<Token>) -> Seq<TokenShape> {
    Seq::new(v.len(), |i: int| v[i]@)
}

/// An optional name as a sequence of characters.
pub open spec fn name_of(ident: Option<String>) -> Option<Seq<char>> {
    match ident {
        Some(id) => Some(id@),
        None => None,
    }
}

/// One attribute of a declared field.
#[derive(Debug, Clone, PartialEq, Eq)]
pub struct FieldAttribute {
    /// The attribute's path, where it is a single plain identifier.
    pub ident: Option<String>,
    /// What stands between the attribute's brackets, as written:
    /// `default_options_override_fn = "function_name"`.
    pub text: String,
}

/// The tokens that `proc_macro2` reads from a text outside a procedural
/// macro, `None` where the text is no sequence of tokens.
pub uninterp spec fn lexed(text: Seq<char>) -> Option<Seq<TokenShape>>;

/// The text that a string literal stands for, as `syn` reads it: escapes
/// resolved, quotes and suffix taken off. `None` where the text is no single
/// string literal.
pub uninterp spec fn literal_value(literal: Seq<char>) -> Option<Seq<char>>;

/// Splits a text into tokens with `proc_macro2::TokenStream`'s `from_str`,
/// one `Token` for each token at the top level. The contract only names the
/// outcome: it claims that the same text always gives the same tokens in a
/// process that is no procedural macro, and nothing of what they are.
#[verifier::external_body]
fn lex(text: &String) -> (r: Option<Vec<Token>>)
    ensures
        match r {
            Some(tokens) => lexed(text@) == Some(shapes(tokens@)),
            None => lexed(text@).is_none(),
        },
{
    match text.parse::<proc_macro2::TokenStream>() {
        Err(_) => None,
        Ok(stream) => Some(
            stream.into_iter().map(
                |tree|
                    match tree {
                        proc_macro2::TokenTree::Ident(id) => Token::Ident(id.to_string()),
                        proc_macro2::TokenTree::Punct(p) => Token::Punct(p.as_char()),
                        proc_macro2::TokenTree::Literal(lit) => Token::Literal(lit.to_string()),
                        proc_macro2::TokenTree::Group(_) => Token::Group,
                    },
            ).collect(),
        ),
    }
}

/// Whether a literal's text begins as a string literal does: with a quote,
/// or with the `r` of a raw string.
pub open spec fn begins_as_string(literal: Seq<char>) -> bool {
    literal.len() > 0 && (literal[0] == '"' || literal[0] == 'r')
}

/// Reads a string literal with `syn::parse_str::<syn::LitStr>` and
/// `LitStr::value`. The contract only names the outcome. A literal of a kind
/// that `syn` does not know would stop the process, so the text must begin as
/// a string literal does; `syn` then looks at a string literal or at nothing.
#[verifier::external_body]
fn string_literal_value(literal: &String) -> (r: Option<String>)
    requires
        begins_as_string(literal@),
    ensures
        name_of(r) == literal_value(literal@),
{
    match syn::parse_str::<syn::LitStr>(literal.as_str()) {
        Ok(lit) => Some(lit.value()),
        Err(_) => None,
    }
}

/// Why an attribute names no options function.
#[derive(Debug, Clone, Copy, PartialEq, Eq, Structural)]
pub enum AttributeError {
    /// The attribute's text is no sequence of tokens.
    Unparsed,
    /// The attribute is not of the form
    /// `#[default_options_override_fn = "function_name"]`.
    ExpectedFunctionName,
}

impl AttributeError {
    /// The text that tells a reader of the declaration what is wrong.
    pub open spec fn text(&self) -> Seq<char> {
        match self {
            AttributeError::Unparsed => "cannot parse string into token stream"@,
            AttributeError::ExpectedFunctionName =>
                "Expected function name in format `#[default_options_override_fn = {function_name}]`"@,
        }
    }

    pub fn message(&self) -> (r: String)
        ensures
            r@ == self.text(),
    {
        match self {
            AttributeError::Unparsed => "cannot parse string into token stream".to_owned(),
            AttributeError::ExpectedFunctionName =>
                "Expected function name in format `#[default_options_override_fn = {function_name}]`".to_owned(),
        }
    }
}

/// Whether `ident` is the single identifier `default_options_override_fn`.
pub open spec fn is_override_ident(ident: Option<Seq<char>>) -> bool {
    ident == Some(override_attribute_name())
}

/// The literal on the right of `default_options_override_fn = "function_name"`,
/// as written: the tokens must be that name, `=`, and one literal that begins
/// as a string literal does.
pub open spec fn override_literal_in(tokens: Seq<TokenShape>) -> Option<Seq<char>> {
    if tokens.len() == 3 && tokens[0] == TokenShape::Ident(override_attribute_name()) && tokens[1]
        == TokenShape::Punct('=') {
        match tokens[2] {
            TokenShape::Literal(l) => if begins_as_string(l) {
                Some(l)
            } else {
                None
            },
            _ => None,
        }
    } else {
        None
    }
}

/// The options function that an attribute's text names, or why it names
/// none: `Unparsed` where the text is no sequence of tokens,
/// `ExpectedFunctionName` where the tokens are not of the form
/// `default_options_override_fn = "function_name"`.
pub open spec fn override_function_in(text: Seq<char>) -> Result<Seq<char>, AttributeError> {
    match lexed(text) {
        None => Err(AttributeError::Unparsed),
        Some(tokens) => match override_literal_in(tokens) {
            None => Err(AttributeError::ExpectedFunctionName),
            Some(l) => match literal_value(l) {
                None => Err(AttributeError::ExpectedFunctionName),
                Some(f) => Ok(f),
            },
        },
    }
}

/// The options function that an attribute names, or why it names none.
pub open spec fn override_function_of(attr: FieldAttribute) -> Result<Seq<char>, AttributeError> {
    override_function_in(attr.text@)
}

fn ident_is_override(ident: &Option<String>) -> (r: bool)
    ensures
        r == is_override_ident(name_of(*ident)),
{
    match ident {
        Some(id) => {
            let wanted = override_attribute();
            *id == wanted
        },
        None => false,
    }
}

/// Finds the literal on the right of
/// `default_options_override_fn = "function_name"` among an attribute's
/// tokens.
pub fn override_literal(tokens: &Vec<Token>) -> (r: Option<String>)
    ensures
        name_of(r) == override_literal_in(shapes(tokens@)),
        r matches Some(l) ==> begins_as_string(l@),
{
    if tokens.len() != 3 {
        return None;
    }
    let named = match &tokens[0] {
        Token::Ident(id) => {
            let wanted = override_attribute();
            *id == wanted
        },
        _ => false,
    };
    let assigned = match &tokens[1] {
        Token::Punct(c) => *c == '=',
        _ => false,
    };
    if !named || !assigned {
        return None;
    }
    match &tokens[2] {
        Token::Literal(l) => {
            if l.as_str().unicode_len() == 0 {
                return None;
            }
            let first = l.as_str().get_char(0);
            if first == '"' || first == 'r' {
                Some(l.clone())
            } else {
                None
            }
        },
        _ => None,
    }
}

/// Extracts the name of the options function from an attribute of the form
/// `#[default_options_override_fn = "function_name"]`.
pub fn get_options_override_function(attr: &FieldAttribute) -> (r: Result<String, AttributeError>)
    ensures
        match r {
            Ok(f) => override_function_of(*attr) == Ok::<Seq<char>, AttributeError>(f@),
            Err(e) => override_function_of(*attr) == Err::<Seq<char>, AttributeError>(e),
        },
{
    match lex(&attr.text) {
        None => Err(AttributeError::Unparsed),
        Some(tokens) => match override_literal(&tokens) {
            None => Err(AttributeError::ExpectedFunctionName),
            Some(literal) => match string_literal_value(&literal) {
                None => Err(AttributeError::ExpectedFunctionName),
                Some(f) => Ok(f),
            },
        },
    }
}

/// The type that a field is declared with, as far as a table set reads it.
#[derive(Debug, Clone, PartialEq, Eq)]
pub enum FieldType {
    /// A path type. `head` is the identifier of its first segment and
    /// `arguments` the arguments between that segment's angle brackets, each
    /// as written; `None` where the segment has no angle brackets.
    Path { head: String, arguments: Option<Vec<String>> },
    /// Any other type.
    Other,
}

/// One declared field: a table in the making.
#[derive(Debug, Clone, PartialEq, Eq)]
pub struct FieldDeclaration {
    pub name: String,
    pub attributes: Vec<FieldAttribute>,
    pub ty: FieldType,
}

/// Where a table's engine options come from when the opener supplies none.
#[derive(Debug, Clone, PartialEq, Eq)]
pub enum OptionsOverride {
    /// The engine-wide default options.
    Default,
    /// The function of this name, which takes nothing and returns options.
    Named(String),
}

impl View for OptionsOverride {
    type V = Option<Seq<char>>;

    open spec fn view(&self) -> Option<Seq<char>> {
        match self {
            OptionsOverride::Default => None,
            OptionsOverride::Named(f) => Some(f@),
        }
    }
}

impl OptionsOverride {
    /// The name of the function that produces the options.
    pub open spec fn function(&self) -> Seq<char> {
        match self {
            OptionsOverride::Default => default_options_function_name(),
            OptionsOverride::Named(f) => f@,
        }
    }

    fn duplicate(&self) -> (r: OptionsOverride)
        ensures
            r@ == self@,
    {
        match self {
            OptionsOverride::Default => OptionsOverride::Default,
            OptionsOverride::Named(f) => OptionsOverride::Named(f.clone()),
        }
    }

    pub fn function_name(&self) -> (r: String)
        ensures
            r@ == self.function(),
    {
        match self {
            OptionsOverride::Default => default_options_function(),
            OptionsOverride::Named(f) => f.clone(),
        }
    }
}

/// One table of a schema.
#[derive(Debug, Clone, PartialEq, Eq)]
pub struct TableDefinition {
    pub name: String,
    pub key_type: String,
    pub value_type: String,
    pub options_override: OptionsOverride,
}

/// Why a declaration is no schema.
#[derive(Debug, Clone, PartialEq, Eq)]
pub enum SchemaError {
    /// No table is declared.
    Empty,
    /// The named field is not declared as one of the allowed table kinds with
    /// a key and a value type.
    InvalidFieldType(String),
    /// Two fields are declared with different table kinds.
    HeterogeneousTableKinds,
    /// The named field's options attribute names no function.
    InvalidOptionsOverride(String),
    /// The named generic parameter is a lifetime or a constant.
    UnsupportedGeneric(String),
}

/// A `SchemaError` with its field name as a sequence of characters.
pub enum SchemaFault {
    Empty,
    InvalidFieldType(Seq<char>),
    HeterogeneousTableKinds,
    InvalidOptionsOverride(Seq<char>),
    UnsupportedGeneric(Seq<char>),
}

impl View for SchemaError {
    type V = SchemaFault;

    open spec fn view(&self) -> SchemaFault {
        match self {
            SchemaError::Empty => SchemaFault::Empty,
            SchemaError::InvalidFieldType(n) => SchemaFault::InvalidFieldType(n@),
            SchemaError::HeterogeneousTableKinds => SchemaFault::HeterogeneousTableKinds,
            SchemaError::InvalidOptionsOverride(n) => SchemaFault::InvalidOptionsOverride(n@),
            SchemaError::UnsupportedGeneric(n) => SchemaFault::UnsupportedGeneric(n@),
        }
    }
}

/// The position of the first attribute at or after `from` that is named
/// `default_options_override_fn`.
pub open spec fn first_override_from(attrs: Seq<FieldAttribute>, from: int) -> Option<int>
    decreases attrs.len() - from,
{
    if from < 0 || from >= attrs.len() {
        None
    } else if is_override_ident(name_of(attrs[from].ident)) {
        Some(from)
    } else {
        first_override_from(attrs, from + 1)
    }
}

/// The options function that a field's attributes select: that of the first
/// attribute named `default_options_override_fn`, `None` where there is no
/// such attribute.
pub open spec fn declared_override(attrs: Seq<FieldAttribute>) -> Result<
    Option<Seq<char>>,
    AttributeError,
> {
    match first_override_from(attrs, 0) {
        None => Ok(None),
        Some(i) => match override_function_of(attrs[i]) {
            Ok(f) => Ok(Some(f)),
            Err(e) => Err(e),
        },
    }
}

/// Reads from a field's attributes where its options come from.
pub fn field_options(attrs: &Vec<FieldAttribute>) -> (r: Result<OptionsOverride, AttributeError>)
    ensures
        match r {
            Ok(o) => declared_override(attrs@) == Ok::<Option<Seq<char>>, AttributeError>(o@),
            Err(e) => declared_override(attrs@) == Err::<Option<Seq<char>>, AttributeError>(e),
        },
{
    let mut i: usize = 0;
    while i < attrs.len()
        invariant
            i <= attrs.len(),
            first_override_from(attrs@, 0) == first_override_from(attrs@, i as int),
        decreases attrs.len() - i,
    {
        if ident_is_override(&attrs[i].ident) {
            return match get_options_override_function(&attrs[i]) {
                Ok(f) => Ok(OptionsOverride::Named(f)),
                Err(e) => Err(e),
            };
        }
        i += 1;
    }
    Ok(OptionsOverride::Default)
}

/// The names in `v`, each as a sequence of characters.
pub open spec fn names_of(v: Seq<String>) -> Seq<Seq<char>> {
    Seq::new(v.len(), |i: int| v[i]@)
}

/// Whether `kind` is one of the allowed table kinds.
pub open spec fn is_allowed(allowed: Seq<Seq<char>>, kind: Seq<char>) -> bool {
    allowed.contains(kind)
}

fn kind_is_allowed(allowed: &Vec<String>, kind: &String) -> (r: bool)
    ensures
        r == is_allowed(names_of(allowed@), kind@),
{
    let mut k: usize = 0;
    while k < allowed.len()
        invariant
            k <= allowed.len(),
            forall|j: int| 0 <= j < k ==> #[trigger] names_of(allowed@)[j] != kind@,
        decreases allowed.len() - k,
    {
        if allowed[k] == *kind {
            assert(names_of(allowed@)[k as int] == kind@);
            return true;
        }
        k += 1;
    }
    false
}

/// The table kind that a type is declared with: the head of a path type with
/// angle-bracketed arguments, where that head is allowed.
pub open spec fn table_kind(ty: FieldType, allowed: Seq<Seq<char>>) -> Option<Seq<char>> {
    match ty {
        FieldType::Path { head, arguments: Some(_) } => if is_allowed(allowed, head@) {
            Some(head@)
        } else {
            None
        },
        _ => None,
    }
}

fn has_table_kind(ty: &FieldType, allowed: &Vec<String>) -> (r: bool)
    ensures
        r == table_kind(*ty, names_of(allowed@)).is_some(),
{
    match ty {
        FieldType::Path { head, arguments: Some(_) } => kind_is_allowed(allowed, head),
        _ => false,
    }
}

/// What is wrong with one field taken alone: its options attribute first,
/// then its type.
pub open spec fn field_fault(f: FieldDeclaration, allowed: Seq<Seq<char>>) -> Option<SchemaFault> {
    if declared_override(f.attributes@).is_err() {
        Some(SchemaFault::InvalidOptionsOverride(f.name@))
    } else if table_kind(f.ty, allowed).is_none() {
        Some(SchemaFault::InvalidFieldType(f.name@))
    } else {
        None
    }
}

/// The fault of the first field at or after `from` that has one.
pub open spec fn first_field_fault_from(
    fields: Seq<FieldDeclaration>,
    allowed: Seq<Seq<char>>,
    from: int,
) -> Option<SchemaFault>
    decreases fields.len() - from,
{
    if from < 0 || from >= fields.len() {
        None
    } else if field_fault(fields[from], allowed).is_some() {
        field_fault(fields[from], allowed)
    } else {
        first_field_fault_from(fields, allowed, from + 1)
    }
}

/// The table kind of the field at `i`.
pub open spec fn kind_at(fields: Seq<FieldDeclaration>, allowed: Seq<Seq<char>>, i: int) -> Option<
    Seq<char>,
> {
    table_kind(fields[i].ty, allowed)
}

/// Every field is declared with the table kind of the first.
pub open spec fn same_kind(fields: Seq<FieldDeclaration>, allowed: Seq<Seq<char>>) -> bool {
    forall|i: int|
        0 <= i < fields.len() ==> #[trigger] kind_at(fields, allowed, i) == kind_at(
            fields,
            allowed,
            0,
        )
}

/// The arguments between the angle brackets of a field's type.
pub open spec fn type_arguments(ty: FieldType) -> Seq<String> {
    match ty {
        FieldType::Path { arguments: Some(a), .. } => a@,
        _ => Seq::empty(),
    }
}

/// The first field at or after `from` whose type has not exactly two
/// arguments, a key type and a value type.
pub open spec fn first_without_key_and_value_from(fields: Seq<FieldDeclaration>, from: int) -> Option<
    SchemaFault,
>
    decreases fields.len() - from,
{
    if from < 0 || from >= fields.len() {
        None
    } else if type_arguments(fields[from].ty).len() != 2 {
        Some(SchemaFault::InvalidFieldType(fields[from].name@))
    } else {
        first_without_key_and_value_from(fields, from + 1)
    }
}

/// Why a list of fields is no schema, `None` where it is one. The checks run
/// in this order: each field alone, in declaration order; that there is a
/// field; that all fields have one table kind; that each type has a key and a
/// value type.
pub open spec fn schema_fault(fields: Seq<FieldDeclaration>, allowed: Seq<Seq<char>>) -> Option<
    SchemaFault,
> {
    if first_field_fault_from(fields, allowed, 0).is_some() {
        first_field_fault_from(fields, allowed, 0)
    } else if fields.len() == 0 {
        Some(SchemaFault::Empty)
    } else if !same_kind(fields, allowed) {
        Some(SchemaFault::HeterogeneousTableKinds)
    } else {
        first_without_key_and_value_from(fields, 0)
    }
}

/// The table `t` is what the field `f` declares: its name, the first of its
/// two type arguments as key type, the second as value type, and its options
/// function.
pub open spec fn defines(t: TableDefinition, f: FieldDeclaration) -> bool {
    let args = type_arguments(f.ty);
    &&& args.len() == 2
    &&& t.name@ == f.name@
    &&& t.key_type@ == args[0]@
    &&& t.value_type@ == args[1]@
    &&& declared_override(f.attributes@) == Ok::<Option<Seq<char>>, AttributeError>(
        t.options_override@,
    )
}

/// A validated table set: at least one table, all of one kind.
#[derive(Debug, Clone, PartialEq, Eq)]
pub struct Schema {
    /// The name of the table set.
    pub name: String,
    /// The table kind that every table is declared with.
    pub kind: String,
    pub tables: Vec<TableDefinition>,
}

impl Schema {
    /// A schema holds at least one table.
    pub open spec fn wf(&self) -> bool {
        self.tables@.len() > 0
    }
}

/// A declared table set before it is checked.
#[derive(Debug, Clone, PartialEq, Eq)]
pub struct StructDeclaration {
    pub name: String,
    pub generics: Vec<GenericParameter>,
    pub fields: Vec<FieldDeclaration>,
}

/// A generic parameter of a declared table set, by its name.
#[derive(Debug, Clone, PartialEq, Eq)]
pub enum GenericParameter {
    Type(String),
    Lifetime(String),
    Const(String),
}

fn table_of(f: &FieldDeclaration, options: OptionsOverride) -> (r: Option<TableDefinition>)
    requires
        declared_override(f.attributes@) == Ok::<Option<Seq<char>>, AttributeError>(options@),
    ensures
        match r {
            Some(t) => defines(t, *f),
            None => type_arguments(f.ty).len() != 2,
        },
{
    match &f.ty {
        FieldType::Path { head: _, arguments: Some(args) } => {
            if args.len() != 2 {
                None
            } else {
                Some(
                    TableDefinition {
                        name: f.name.clone(),
                        key_type: args[0].clone(),
                        value_type: args[1].clone(),
                        options_override: options,
                    },
                )
            }
        },
        _ => None,
    }
}

fn head_of(ty: &FieldType) -> (r: String)
    ensures
        ty matches FieldType::Path { head, .. } ==> r@ == head@,
{
    match ty {
        FieldType::Path { head, arguments: _ } => head.clone(),
        FieldType::Other => String::new(),
    }
}

/// Checks a declared table set and extracts its tables.
///
/// Each field must be declared as `Kind<K, V>` with `Kind` among `allowed`,
/// all fields with the same `Kind`, and there must be at least one. A field's
/// key type is the first argument of its type, its value type the second, and
/// its options function the one that its `default_options_override_fn`
/// attribute names.
#[verifier::loop_isolation(false)]
pub fn extract_struct_info(input: &StructDeclaration, allowed: &Vec<String>) -> (r: Result<
    Schema,
    SchemaError,
>)
    ensures
        match r {
            Ok(s) => {
                &&& schema_fault(input.fields@, names_of(allowed@)).is_none()
                &&& s.wf()
                &&& s.name@ == input.name@
                &&& Some(s.kind@) == kind_at(input.fields@, names_of(allowed@), 0)
                &&& s.tables@.len() == input.fields@.len()
                &&& forall|i: int|
                    0 <= i < s.tables@.len() ==> defines(#[trigger] s.tables@[i], input.fields@[i])
            },
            Err(e) => schema_fault(input.fields@, names_of(allowed@)) == Some(e@),
        },
{
    let fields = &input.fields;
    let n = fields.len();
    let mut options: Vec<OptionsOverride> = Vec::new();
    let mut i: usize = 0;
    while i < n
        invariant
            n == fields@.len(),
            i <= n,
            options@.len() == i,
            first_field_fault_from(fields@, names_of(allowed@), 0) == first_field_fault_from(
                fields@,
                names_of(allowed@),
                i as int,
            ),
            forall|j: int|
                0 <= j < i ==> declared_override(fields@[j].attributes@) == Ok::<
                    Option<Seq<char>>,
                    AttributeError,
                >((#[trigger] options@[j])@),
            forall|j: int| 0 <= j < i ==> (#[trigger] kind_at(fields@, names_of(allowed@), j)).is_some(),
        decreases n - i,
    {
        let f = &fields[i];
        match field_options(&f.attributes) {
            Err(_) => {
                return Err(SchemaError::InvalidOptionsOverride(f.name.clone()));
            },
            Ok(o) => {
                if !has_table_kind(&f.ty, allowed) {
                    return Err(SchemaError::InvalidFieldType(f.name.clone()));
                }
                options.push(o);
            },
        }
        i += 1;
    }
    if n == 0 {
        return Err(SchemaError::Empty);
    }
    let kind = head_of(&fields[0].ty);
    let mut j: usize = 1;
    while j < n
        invariant
            n == fields@.len(),
            1 <= j <= n,
            first_field_fault_from(fields@, names_of(allowed@), 0).is_none(),
            kind_at(fields@, names_of(allowed@), 0) == Some(kind@),
            forall|k: int| 0 <= k < n ==> (#[trigger] kind_at(fields@, names_of(allowed@), k)).is_some(),
            forall|k: int|
                0 <= k < j ==> #[trigger] kind_at(fields@, names_of(allowed@), k) == kind_at(
                    fields@,
                    names_of(allowed@),
                    0,
                ),
        decreases n - j,
    {
        let other = head_of(&fields[j].ty);
        if other != kind {
            assert(kind_at(fields@, names_of(allowed@), j as int) != kind_at(fields@, names_of(allowed@), 0));
            return Err(SchemaError::HeterogeneousTableKinds);
        }
        j += 1;
    }
    let mut tables: Vec<TableDefinition> = Vec::new();
    let mut t: usize = 0;
    while t < n
        invariant
            n == fields@.len(),
            t <= n,
            options@.len() == n,
            tables@.len() == t,
            n > 0,
            first_field_fault_from(fields@, names_of(allowed@), 0).is_none(),
            same_kind(fields@, names_of(allowed@)),
            first_without_key_and_value_from(fields@, 0) == first_without_key_and_value_from(
                fields@,
                t as int,
            ),
            forall|j: int|
                0 <= j < n ==> declared_override(fields@[j].attributes@) == Ok::<
                    Option<Seq<char>>,
                    AttributeError,
                >((#[trigger] options@[j])@),
            forall|j: int| 0 <= j < t ==> defines(#[trigger] tables@[j], fields@[j]),
        decreases n - t,
    {
        let f = &fields[t];
        match table_of(f, options[t].duplicate()) {
            Some(table) => {
                tables.push(table);
            },
            None => {
                return Err(SchemaError::InvalidFieldType(f.name.clone()));
            },
        }
        t += 1;
    }
    Ok(Schema { name: input.name.clone(), kind, tables })
}

/// Whether one of `tables` is named `name`.
pub open spec fn has_table(tables: Seq<TableDefinition>, name: Seq<char>) -> bool {
    exists|i: int| 0 <= i < tables.len() && (#[trigger] tables[i]).name@ == name
}

/// The position of the first table at or after `from` that is named `name`.
pub open spec fn position_from(tables: Seq<TableDefinition>, name: Seq<char>, from: int) -> Option<
    int,
>
    decreases tables.len() - from,
{
    if from < 0 || from >= tables.len() {
        None
    } else if tables[from].name@ == name {
        Some(from)
    } else {
        position_from(tables, name, from + 1)
    }
}

/// What `position_from` finds is a table of that name with none of that name
/// between `from` and it; it finds nothing only where none has that name.
pub proof fn lemma_position_from(tables: Seq<TableDefinition>, name: Seq<char>, from: int)
    requires
        0 <= from,
    ensures
        match position_from(tables, name, from) {
            Some(i) => {
                &&& from <= i < tables.len()
                &&& tables[i].name@ == name
                &&& forall|j: int| from <= j < i ==> (#[trigger] tables[j]).name@ != name
            },
            None => forall|j: int| from <= j < tables.len() ==> (#[trigger] tables[j]).name@ != name,
        },
    decreases tables.len() - from,
{
    if from < tables.len() && tables[from].name@ != name {
        lemma_position_from(tables, name, from + 1);
    }
}

impl Schema {
    /// Makes a schema of tables that are given one by one.
    pub fn new(name: String, kind: String, tables: Vec<TableDefinition>) -> (r: Result<
        Schema,
        SchemaError,
    >)
        ensures
            match r {
                Ok(s) => tables@.len() > 0 && s.wf() && s.name == name && s.kind == kind
                    && s.tables == tables,
                Err(e) => tables@.len() == 0 && e@ == SchemaFault::Empty,
            },
    {
        if tables.len() == 0 {
            Err(SchemaError::Empty)
        } else {
            Ok(Schema { name, kind, tables })
        }
    }

    /// The position of the table named `name`: of the first, where several
    /// have that name.
    pub open spec fn position(&self, name: Seq<char>) -> Option<int> {
        position_from(self.tables@, name, 0)
    }

    /// Finds a table by its name.
    pub fn find_table(&self, name: &String) -> (r: Option<usize>)
        ensures
            match r {
                Some(i) => self.position(name@) == Some(i as int) && i < self.tables@.len(),
                None => self.position(name@).is_none(),
            },
    {
        let mut i: usize = 0;
        while i < self.tables.len()
            invariant
                i <= self.tables@.len(),
                position_from(self.tables@, name@, 0) == position_from(
                    self.tables@,
                    name@,
                    i as int,
                ),
            decreases self.tables@.len() - i,
        {
            if self.tables[i].name == *name {
                return Some(i);
            }
            i += 1;
        }
        None
    }

    /// The name of the table set.
    pub fn primary_db_name(&self) -> (r: String)
        ensures
            r == self.name,
    {
        self.name.clone()
    }

    /// Each table's name with the names of its key and value types, in
    /// declaration order. Needs no open engine.
    pub fn describe_tables(&self) -> (r: Vec<(String, (String, String))>)
        ensures
            r@.len() == self.tables@.len(),
            forall|i: int|
                0 <= i < r@.len() ==> #[trigger] r@[i] == (
                    self.tables@[i].name,
                    (self.tables@[i].key_type, self.tables@[i].value_type),
                ),
    {
        let mut out: Vec<(String, (String, String))> = Vec::new();
        let mut i: usize = 0;
        while i < self.tables.len()
            invariant
                i <= self.tables@.len(),
                out@.len() == i,
                forall|j: int|
                    0 <= j < i ==> #[trigger] out@[j] == (
                        self.tables@[j].name,
                        (self.tables@[j].key_type, self.tables@[j].value_type),
                    ),
            decreases self.tables@.len() - i,
        {
            let t = &self.tables[i];
            out.push((t.name.clone(), (t.key_type.clone(), t.value_type.clone())));
            i += 1;
        }
        out
    }
}

/// The first parameter at or after `from` that is no type parameter.
pub open spec fn first_unsupported_from(generics: Seq<GenericParameter>, from: int) -> Option<
    Seq<char>,
>
    decreases generics.len() - from,
{
    if from < 0 || from >= generics.len() {
        None
    } else {
        match generics[from] {
            GenericParameter::Type(_) => first_unsupported_from(generics, from + 1),
            GenericParameter::Lifetime(n) => Some(n@),
            GenericParameter::Const(n) => Some(n@),
        }
    }
}

/// The names of a table set's type parameters, in order. A lifetime or a
/// constant parameter is refused.
pub fn extract_generics_names(generics: &Vec<GenericParameter>) -> (r: Result<
    Vec<String>,
    SchemaError,
>)
    ensures
        match r {
            Ok(names) => {
                &&& first_unsupported_from(generics@, 0).is_none()
                &&& names@.len() == generics@.len()
                &&& forall|i: int|
                    0 <= i < names@.len() ==> generics@[i] == GenericParameter::Type(
                        #[trigger] names@[i],
                    )
            },
            Err(e) => first_unsupported_from(generics@, 0) matches Some(n)
                && e@ == SchemaFault::UnsupportedGeneric(n),
        },
{
    let mut names: Vec<String> = Vec::new();
    let mut i: usize = 0;
    while i < generics.len()
        invariant
            i <= generics@.len(),
            names@.len() == i,
            first_unsupported_from(generics@, 0) == first_unsupported_from(generics@, i as int),
            forall|j: int|
                0 <= j < i ==> generics@[j] == GenericParameter::Type(#[trigger] names@[j]),
        decreases generics@.len() - i,
    {
        match &generics[i] {
            GenericParameter::Type(n) => {
                names.push(n.clone());
            },
            GenericParameter::Lifetime(n) => {
                return Err(SchemaError::UnsupportedGeneric(n.clone()));
            },
            GenericParameter::Const(n) => {
                return Err(SchemaError::UnsupportedGeneric(n.clone()));
            },
        }
        i += 1;
    }
    Ok(names)
}

/// The table kinds that a table set may be declared with.
pub open spec fn table_kinds() -> Seq<Seq<char>> {
    seq!["DBMap"@, "Store"@]
}

pub fn allowed_table_kinds() -> (r: Vec<String>)
    ensures
        r@.len() == 2,
        r@[0]@ == table_kinds()[0],
        r@[1]@ == table_kinds()[1],
{
    let mut kinds: Vec<String> = Vec::new();
    kinds.push("DBMap".to_owned());
    kinds.push("Store".to_owned());
    kinds
}

/// The function that wraps each opened table of a table kind, by name: none
/// for `DBMap`, `typed_store::Store::new` for `Store`. A kind that is not
/// allowed has no answer.
pub open spec fn post_process_of(kind: Seq<char>) -> Option<Seq<char>> {
    if kind == table_kinds()[0] {
        Some(""@)
    } else if kind == table_kinds()[1] {
        Some("typed_store::Store::new"@)
    } else {
        None
    }
}

pub fn post_process_function(kind: &String) -> (r: Option<String>)
    ensures
        name_of(r) == post_process_of(kind@),
{
    if *kind == "DBMap".to_owned() {
        Some("".to_owned())
    } else if *kind == "Store".to_owned() {
        Some("typed_store::Store::new".to_owned())
    } else {
        None
    }
}

/// A field that is a table by itself: a well-formed options attribute or
/// none, an allowed table kind, and a key and a value type.
pub open spec fn is_table(f: FieldDeclaration, allowed: Seq<Seq<char>>) -> bool {
    &&& declared_override(f.attributes@).is_ok()
    &&& table_kind(f.ty, allowed).is_some()
    &&& type_arguments(f.ty).len() == 2
}

proof fn lemma_first_field_fault(fields: Seq<FieldDeclaration>, allowed: Seq<Seq<char>>, from: int)
    requires
        0 <= from,
    ensures
        first_field_fault_from(fields, allowed, from).is_none() <==> forall|i: int|
            from <= i < fields.len() ==> field_fault(#[trigger] fields[i], allowed).is_none(),
    decreases fields.len() - from,
{
    if from < fields.len() {
        lemma_first_field_fault(fields, allowed, from + 1);
    }
}

proof fn lemma_first_without_key_and_value(fields: Seq<FieldDeclaration>, from: int)
    requires
        0 <= from,
    ensures
        first_without_key_and_value_from(fields, from).is_none() <==> forall|i: int|
            from <= i < fields.len() ==> type_arguments((#[trigger] fields[i]).ty).len() == 2,
    decreases fields.len() - from,
{
    if from < fields.len() {
        lemma_first_without_key_and_value(fields, from + 1);
    }
}

/// A list of fields is a schema exactly where there is a field, every field
/// is a table by itself, and all fields have one table kind.
pub proof fn lemma_schema_fault_none(fields: Seq<FieldDeclaration>, allowed: Seq<Seq<char>>)
    ensures
        schema_fault(fields, allowed).is_none() <==> {
            &&& fields.len() > 0
            &&& forall|i: int| 0 <= i < fields.len() ==> is_table(#[trigger] fields[i], allowed)
            &&& same_kind(fields, allowed)
        },
{
    lemma_first_field_fault(fields, allowed, 0);
    lemma_first_without_key_and_value(fields, 0);
}

/// Checks a declared table set against the table kinds `DBMap` and `Store`
/// and makes its schema: the type parameters first, then the fields.
pub fn derive_dbmap_utils_general(input: &StructDeclaration) -> (r: Result<Schema, SchemaError>)
    ensures
        match r {
            Ok(s) => {
                &&& first_unsupported_from(input.generics@, 0).is_none()
                &&& s.wf()
                &&& s.name@ == input.name@
                &&& schema_fault(input.fields@, table_kinds()).is_none()
                &&& Some(s.kind@) == kind_at(input.fields@, table_kinds(), 0)
                &&& s.tables@.len() == input.fields@.len()
                &&& forall|i: int|
                    0 <= i < s.tables@.len() ==> defines(#[trigger] s.tables@[i], input.fields@[i])
            },
            Err(e) => match first_unsupported_from(input.generics@, 0) {
                Some(n) => e@ == SchemaFault::UnsupportedGeneric(n),
                None => schema_fault(input.fields@, table_kinds()) == Some(e@),
            },
        },
{
    match extract_generics_names(&input.generics) {
        Err(e) => Err(e),
        Ok(_) => {
            let allowed = allowed_table_kinds();
            assert(names_of(allowed@) =~= table_kinds());
            extract_struct_info(input, &allowed)
        },
    }
}

} // verus!
