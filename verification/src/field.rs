//! Resolution of the field references of a `SELECT` list against the
//! correlations (streams, possibly aliased) of its `FROM` clause.
use vstd::prelude::*;
use vstd::string::*;

use crate::error::{SpringError, SqlError};

verus! {

/// The view of an optional string.
pub open spec fn opt_str_view(o: Option<String>) -> Option<Seq<char>> {
    match o {
        Some(s) => Some(s@),
        None => None,
    }
}

/// Clones an optional string.
pub fn clone_opt_string(o: &Option<String>) -> (r: Option<String>)
    ensures
        r == *o,
{
    match o {
        Some(s) => Some(s.clone()),
        None => None,
    }
}

/// Whether an optional string holds exactly `s`.
pub fn opt_string_is(o: &Option<String>, s: &String) -> (r: bool)
    ensures
        r == (opt_str_view(*o) == Some(s@)),
{
    match o {
        Some(x) => *x == *s,
        None => false,
    }
}

/// The mathematical view of a correlation: a stream name and its alias.
pub struct CorrelationView {
    pub name: Seq<char>,
    pub alias: Option<Seq<char>>,
}

impl CorrelationView {
    /// A correlation is referred to by its stream name or by its alias.
    pub open spec fn matches_name(self, n: Seq<char>) -> bool {
        self.name == n || self.alias == Some(n)
    }
}

/// A stream in a FROM clause with its optional alias (`FROM t AS a`).
#[derive(Debug, PartialEq, Eq)]
pub struct AliasedCorrelationName {
    pub correlation_name: String,
    pub correlation_alias: Option<String>,
}

impl View for AliasedCorrelationName {
    type V = CorrelationView;

    open spec fn view(&self) -> CorrelationView {
        CorrelationView { name: self.correlation_name@, alias: opt_str_view(self.correlation_alias) }
    }
}

impl Clone for AliasedCorrelationName {
    fn clone(&self) -> (r: Self)
        ensures
            r == *self,
    {
        AliasedCorrelationName {
            correlation_name: self.correlation_name.clone(),
            correlation_alias: clone_opt_string(&self.correlation_alias),
        }
    }
}

impl AliasedCorrelationName {
    /// Whether `name` refers to this correlation.
    pub fn matches(&self, name: &String) -> (r: bool)
        ensures
            r == self@.matches_name(name@),
    {
        self.correlation_name == *name || opt_string_is(&self.correlation_alias, name)
    }
}

/// The view of a field reference `prefix.attr` or `attr`.
pub struct FieldPointerView {
    pub prefix: Option<Seq<char>>,
    pub attr: Seq<char>,
}

/// A reference to a field as written in SQL: `attr` or `prefix.attr`.
#[derive(Debug, PartialEq, Eq)]
pub struct FieldPointer {
    pub prefix: Option<String>,
    pub attr: String,
}

impl View for FieldPointer {
    type V = FieldPointerView;

    open spec fn view(&self) -> FieldPointerView {
        FieldPointerView { prefix: opt_str_view(self.prefix), attr: self.attr@ }
    }
}

/// The number of dots in a sequence of characters.
pub open spec fn dot_count(s: Seq<char>) -> nat
    decreases s.len(),
{
    if s.len() == 0 {
        0
    } else {
        dot_count(s.drop_last()) + if s.last() == '.' {
            1nat
        } else {
            0nat
        }
    }
}

/// The field pointer that `s` denotes: split at its dot, if it has one.
pub open spec fn spec_pointer_from(s: Seq<char>) -> FieldPointerView {
    if exists|i: int| 0 <= i < s.len() && s[i] == '.' {
        let i = choose|i: int| 0 <= i < s.len() && s[i] == '.';
        FieldPointerView { prefix: Some(s.subrange(0, i)), attr: s.subrange(i + 1, s.len() as int) }
    } else {
        FieldPointerView { prefix: None, attr: s }
    }
}

proof fn lemma_dot_count_prefix(s: Seq<char>, k: int)
    requires
        0 <= k <= s.len(),
    ensures
        dot_count(s.subrange(0, k)) <= dot_count(s),
    decreases s.len() - k,
{
    if k < s.len() {
        lemma_dot_count_prefix(s, k + 1);
        assert(s.subrange(0, k + 1).drop_last() =~= s.subrange(0, k));
    } else {
        assert(s.subrange(0, k) =~= s);
    }
}

/// Two dots at distinct places make the count at least two.
proof fn lemma_two_dots(s: Seq<char>, i: int, j: int)
    requires
        0 <= i < j < s.len(),
        s[i] == '.',
        s[j] == '.',
    ensures
        dot_count(s) >= 2,
{
    lemma_one_dot(s.subrange(0, j), i);
    assert(s.subrange(0, j + 1).drop_last() =~= s.subrange(0, j));
    lemma_dot_count_prefix(s, j + 1);
}

proof fn lemma_one_dot(s: Seq<char>, i: int)
    requires
        0 <= i < s.len(),
        s[i] == '.',
    ensures
        dot_count(s) >= 1,
{
    assert(s.subrange(0, i + 1).drop_last() =~= s.subrange(0, i));
    lemma_dot_count_prefix(s, i + 1);
}

impl FieldPointer {
    /// Parses `attr` or `prefix.attr`.
    pub fn from(s: &str) -> (r: FieldPointer)
        requires
            dot_count(s@) <= 1,
        ensures
            r@ == spec_pointer_from(s@),
    {
        let n = s.unicode_len();
        let mut i: usize = 0;
        while i < n
            invariant
                n == s@.len(),
                i <= n,
                forall|j: int| 0 <= j < i ==> s@[j] != '.',
            ensures
                i < n ==> s@[i as int] == '.',
            decreases n - i,
        {
            if s.get_char(i) == '.' {
                break;
            }
            i = i + 1;
        }
        if i < n {
            assert(s@[i as int] == '.');
            proof {
                assert forall|j: int| 0 <= j < s@.len() && s@[j] == '.' implies j == i by {
                    if j < i {
                    } else if j > i {
                        lemma_two_dots(s@, i as int, j);
                    }
                }
            }
            let prefix = s.substring_char(0, i).to_owned();
            let attr = s.substring_char(i + 1, n).to_owned();
            FieldPointer { prefix: Some(prefix), attr }
        } else {
            FieldPointer { prefix: None, attr: s.to_owned() }
        }
    }

    /// The prefix (a stream name or alias), if any.
    pub fn prefix(&self) -> (r: &Option<String>)
        ensures
            *r == self.prefix,
    {
        &self.prefix
    }

    /// The attribute (column) part.
    pub fn attr(&self) -> (r: &String)
        ensures
            *r == self.attr,
    {
        &self.attr
    }
}

/// The view of a resolved field: its correlation and its attribute.
pub struct FieldNameView {
    pub corr: CorrelationView,
    pub attr: Seq<char>,
}

/// A field resolved against a FROM item.
#[derive(Debug, PartialEq, Eq)]
pub struct FieldName {
    pub aliased_correlation_name: AliasedCorrelationName,
    pub attribute_name: String,
}

impl View for FieldName {
    type V = FieldNameView;

    open spec fn view(&self) -> FieldNameView {
        FieldNameView { corr: self.aliased_correlation_name@, attr: self.attribute_name@ }
    }
}

impl FieldName {
    pub fn new(aliased_correlation_name: AliasedCorrelationName, attribute_name: String) -> (r:
        FieldName)
        ensures
            r.aliased_correlation_name == aliased_correlation_name,
            r.attribute_name == attribute_name,
    {
        FieldName { aliased_correlation_name, attribute_name }
    }
}

/// The view of a field with its optional alias in a SELECT list.
pub struct AliasedFieldNameView {
    pub field_name: FieldNameView,
    pub alias: Option<Seq<char>>,
}

/// A resolved field with its optional alias (`SELECT t.c AS x`).
#[derive(Debug, PartialEq, Eq)]
pub struct AliasedFieldName {
    pub field_name: FieldName,
    pub field_alias: Option<String>,
}

impl View for AliasedFieldName {
    type V = AliasedFieldNameView;

    open spec fn view(&self) -> AliasedFieldNameView {
        AliasedFieldNameView { field_name: self.field_name@, alias: opt_str_view(self.field_alias) }
    }
}

impl AliasedFieldNameView {
    /// Whether a field pointer refers to this field: the attribute is named
    /// by the column or by the field alias, and a prefix, where given, names
    /// the correlation.
    pub open spec fn matches_pointer(self, p: FieldPointerView) -> bool {
        let attr_ok = self.field_name.attr == p.attr || self.alias == Some(p.attr);
        match p.prefix {
            Some(prefix) => self.field_name.corr.matches_name(prefix) && attr_ok,
            None => attr_ok,
        }
    }
}

impl AliasedFieldName {
    pub fn new(field_name: FieldName, field_alias: Option<String>) -> (r: AliasedFieldName)
        ensures
            r.field_name == field_name,
            r.field_alias == field_alias,
    {
        AliasedFieldName { field_name, field_alias }
    }

    /// Whether `pointer` refers to this field.
    pub fn matches(&self, pointer: &FieldPointer) -> (r: bool)
        ensures
            r == self@.matches_pointer(pointer@),
    {
        let attr_ok = self.field_name.attribute_name == pointer.attr || opt_string_is(
            &self.field_alias,
            &pointer.attr,
        );
        match &pointer.prefix {
            Some(prefix) => self.field_name.aliased_correlation_name.matches(prefix) && attr_ok,
            None => attr_ok,
        }
    }
}

/// Unary operators of value expressions.
#[derive(Debug, Clone, Copy, PartialEq, Eq)]
pub enum UnaryOperator {
    Minus,
}

/// Boolean expressions of the WHERE and SELECT clauses.
#[derive(Debug, PartialEq, Eq)]
pub enum BooleanExpression {
    Equal(Box<Expression>, Box<Expression>),
}

/// Value expressions of a SELECT list.
#[derive(Debug, PartialEq, Eq)]
pub enum Expression {
    Constant(i64),
    UnaryOperator(UnaryOperator, Box<Expression>),
    BooleanExpr(BooleanExpression),
    FieldPointer(FieldPointer),
}

/// One element of a SELECT list with its optional alias.
#[derive(Debug, PartialEq, Eq)]
pub struct SelectFieldSyntax {
    pub expression: Expression,
    pub alias: Option<String>,
}

/// A FROM clause: a stream, or a join of FROM items.
#[derive(Debug, PartialEq, Eq)]
pub enum FromItemSyntax {
    StreamVariant { stream_name: String, alias: Option<String> },
    JoinVariant { left: Box<FromItemSyntax>, right: Box<FromItemSyntax> },
}

/// The correlations of a FROM item, from left to right.
pub open spec fn spec_correlations(f: FromItemSyntax) -> Seq<CorrelationView>
    decreases f,
{
    match f {
        FromItemSyntax::StreamVariant { stream_name, alias } => seq![
            CorrelationView { name: stream_name@, alias: opt_str_view(alias) },
        ],
        FromItemSyntax::JoinVariant { left, right } => spec_correlations(*left) + spec_correlations(
            *right,
        ),
    }
}

proof fn lemma_correlations_nonempty(f: FromItemSyntax)
    ensures
        spec_correlations(f).len() >= 1,
    decreases f,
{
    match f {
        FromItemSyntax::StreamVariant { .. } => {},
        FromItemSyntax::JoinVariant { left, right } => {
            lemma_correlations_nonempty(*left);
        },
    }
}

/// `SELECT STREAM fields FROM from_item`.
#[derive(Debug, PartialEq, Eq)]
pub struct SelectStreamSyntax {
    pub fields: Vec<SelectFieldSyntax>,
    pub from_item: FromItemSyntax,
}

/// The view of a resolution error.
pub enum SqlErrorView {
    UnknownCorrelation { prefix: Seq<char>, attr: Seq<char> },
    AmbiguousColumn { attr: Seq<char> },
}

impl View for SqlError {
    type V = SqlErrorView;

    open spec fn view(&self) -> SqlErrorView {
        match self {
            SqlError::UnknownCorrelation { prefix, attr } => SqlErrorView::UnknownCorrelation {
                prefix: prefix@,
                attr: attr@,
            },
            SqlError::AmbiguousColumn { attr } => SqlErrorView::AmbiguousColumn { attr: attr@ },
        }
    }
}

/// `k` is the first correlation that `prefix` names.
pub open spec fn is_first_match(corrs: Seq<CorrelationView>, prefix: Seq<char>, k: int) -> bool {
    &&& 0 <= k < corrs.len()
    &&& corrs[k].matches_name(prefix)
    &&& forall|j: int| 0 <= j < k ==> !corrs[j].matches_name(prefix)
}

proof fn lemma_first_match_unique(corrs: Seq<CorrelationView>, prefix: Seq<char>, i: int)
    requires
        is_first_match(corrs, prefix, i),
    ensures
        (choose|k: int| is_first_match(corrs, prefix, k)) == i,
{
    let k = choose|k: int| is_first_match(corrs, prefix, k);
    if k < i {
        assert(!corrs[k].matches_name(prefix));
    } else if k > i {
        assert(!corrs[i].matches_name(prefix));
    }
}

/// `prefix.attr` resolves to the first correlation that `prefix` names.
pub open spec fn spec_field_name_with_prefix(
    prefix: Seq<char>,
    attr: Seq<char>,
    corrs: Seq<CorrelationView>,
) -> Result<FieldNameView, SqlErrorView> {
    if exists|k: int| is_first_match(corrs, prefix, k) {
        let k = choose|k: int| is_first_match(corrs, prefix, k);
        Ok(FieldNameView { corr: corrs[k], attr })
    } else {
        Err(SqlErrorView::UnknownCorrelation { prefix, attr })
    }
}

/// `attr` without a prefix resolves only when there is one correlation.
pub open spec fn spec_field_name_without_prefix(
    attr: Seq<char>,
    corrs: Seq<CorrelationView>,
) -> Result<FieldNameView, SqlErrorView> {
    if corrs.len() > 1 {
        Err(SqlErrorView::AmbiguousColumn { attr })
    } else {
        Ok(FieldNameView { corr: corrs[0], attr })
    }
}

/// The field that a pointer denotes among the FROM items' correlations.
pub open spec fn spec_field_name(p: FieldPointerView, corrs: Seq<CorrelationView>) -> Result<
    FieldNameView,
    SqlErrorView,
> {
    match p.prefix {
        Some(prefix) => spec_field_name_with_prefix(prefix, p.attr, corrs),
        None => spec_field_name_without_prefix(p.attr, corrs),
    }
}

/// The resolution error that an engine error carries.
pub open spec fn sql_error_of(e: SpringError) -> SqlErrorView {
    match e {
        SpringError::Sql(se) => se@,
        _ => SqlErrorView::AmbiguousColumn { attr: Seq::empty() },
    }
}

/// The view of a field-name result.
pub open spec fn field_result_view(r: Result<FieldName, SpringError>) -> Result<
    FieldNameView,
    SqlErrorView,
> {
    match r {
        Ok(f) => Ok(f@),
        Err(e) => Err(sql_error_of(e)),
    }
}

/// Every error of a result is a resolution error.
pub open spec fn sql_errors_only<T>(r: Result<T, SpringError>) -> bool {
    r matches Err(e) ==> e is Sql
}

/// The view of the correlations of a slice.
pub open spec fn corrs_view(s: Seq<AliasedCorrelationName>) -> Seq<CorrelationView> {
    s.map_values(|c: AliasedCorrelationName| c@)
}

/// Whether a SELECT field is a bare field reference, the only kind that
/// the projection supports.
pub open spec fn is_field_pointer(f: SelectFieldSyntax) -> bool {
    f.expression is FieldPointer
}

/// The aliased field that a SELECT field (a field reference) resolves to.
#[verifier::opaque]
pub open spec fn spec_select_field(f: SelectFieldSyntax, corrs: Seq<CorrelationView>) -> Result<
    AliasedFieldNameView,
    SqlErrorView,
>
    recommends
        is_field_pointer(f),
{
    match f.expression {
        Expression::FieldPointer(p) => match spec_field_name(p@, corrs) {
            Ok(fnv) => Ok(AliasedFieldNameView { field_name: fnv, alias: opt_str_view(f.alias) }),
            Err(e) => Err(e),
        },
        _ => Err(SqlErrorView::AmbiguousColumn { attr: Seq::empty() }),
    }
}

/// The `i`-th SELECT field is the first that fails to resolve, with `e`.
pub open spec fn first_failure_at(
    fields: Seq<SelectFieldSyntax>,
    corrs: Seq<CorrelationView>,
    i: int,
    e: SqlErrorView,
) -> bool {
    &&& 0 <= i < fields.len()
    &&& forall|j: int| 0 <= j < i ==> spec_select_field(#[trigger] fields[j], corrs) is Ok
    &&& spec_select_field(fields[i], corrs) == Err::<AliasedFieldNameView, SqlErrorView>(e)
}

/// Every SELECT field before the `i`-th resolves.
pub open spec fn resolves_before(fields: Seq<SelectFieldSyntax>, corrs: Seq<CorrelationView>, i: int) -> bool {
    forall|j: int| 0 <= j < i ==> spec_select_field(#[trigger] fields[j], corrs) is Ok
}

/// Analyzes the syntax of a `SELECT STREAM` statement.
#[derive(Debug, PartialEq, Eq)]
pub struct SelectSyntaxAnalyzer {
    pub select_syntax: SelectStreamSyntax,
}

impl SelectSyntaxAnalyzer {
    pub fn new(select_syntax: SelectStreamSyntax) -> (r: SelectSyntaxAnalyzer)
        ensures
            r.select_syntax == select_syntax,
    {
        SelectSyntaxAnalyzer { select_syntax }
    }

    /// The correlations of a FROM item, from left to right.
    pub fn correlations_of(from_item: &FromItemSyntax) -> (r: Vec<AliasedCorrelationName>)
        ensures
            corrs_view(r@) == spec_correlations(*from_item),
        decreases from_item,
    {
        match from_item {
            FromItemSyntax::StreamVariant { stream_name, alias } => {
                let mut v = Vec::new();
                v.push(
                    AliasedCorrelationName {
                        correlation_name: stream_name.clone(),
                        correlation_alias: clone_opt_string(alias),
                    },
                );
                assert(corrs_view(v@) =~= spec_correlations(*from_item));
                v
            },
            FromItemSyntax::JoinVariant { left, right } => {
                let mut l = Self::correlations_of(left);
                let mut r = Self::correlations_of(right);
                let ghost l0 = l@;
                let ghost r0 = r@;
                l.append(&mut r);
                assert(corrs_view(l@) =~= corrs_view(l0) + corrs_view(r0));
                l
            },
        }
    }

    /// The correlations of this statement's FROM clause.
    pub fn from_item_correlations(&self) -> (r: Vec<AliasedCorrelationName>)
        ensures
            corrs_view(r@) == spec_correlations(self.select_syntax.from_item),
            r@.len() >= 1,
    {
        proof {
            lemma_correlations_nonempty(self.select_syntax.from_item);
        }
        let r = Self::correlations_of(&self.select_syntax.from_item);
        assert(corrs_view(r@).len() == r@.len());
        r
    }

    /// The aliased field names of the SELECT list, in order.
    ///
    /// Fails with the error of the first field that does not resolve.
    pub fn aliased_field_names_in_projection(&self) -> (r: Result<
        Vec<AliasedFieldName>,
        SpringError,
    >)
        requires
            forall|i: int|
                0 <= i < self.select_syntax.fields@.len() && resolves_before(
                    self.select_syntax.fields@,
                    spec_correlations(self.select_syntax.from_item),
                    i,
                ) ==> is_field_pointer(#[trigger] self.select_syntax.fields@[i]),
        ensures
            ({
                let fields = self.select_syntax.fields@;
                let corrs = spec_correlations(self.select_syntax.from_item);
                match r {
                    Ok(v) => {
                        &&& v@.len() == fields.len()
                        &&& forall|i: int|
                            0 <= i < fields.len() ==> spec_select_field(#[trigger] fields[i], corrs)
                                == Ok::<AliasedFieldNameView, SqlErrorView>(v@[i]@)
                    },
                    Err(err) => err is Sql && exists|i: int|
                        first_failure_at(fields, corrs, i, sql_error_of(err)),
                }
            }),
    {
        let from_item_correlations = self.from_item_correlations();
        let select_fields = &self.select_syntax.fields;
        let ghost corrs = spec_correlations(self.select_syntax.from_item);
        let mut out: Vec<AliasedFieldName> = Vec::new();
        let n = select_fields.len();
        let mut i: usize = 0;
        while i < n
            invariant
                n == select_fields@.len(),
                select_fields == &self.select_syntax.fields,
                i <= n,
                out@.len() == i,
                corrs_view(from_item_correlations@) == corrs,
                corrs == spec_correlations(self.select_syntax.from_item),
                from_item_correlations@.len() >= 1,
                forall|k: int|
                    0 <= k < n && resolves_before(select_fields@, corrs, k) ==> is_field_pointer(
                        #[trigger] select_fields@[k],
                    ),
                forall|k: int|
                    0 <= k < i ==> spec_select_field(#[trigger] select_fields@[k], corrs) == Ok::<
                        AliasedFieldNameView,
                        SqlErrorView,
                    >(out@[k]@),
            decreases n - i,
        {
            assert(resolves_before(select_fields@, corrs, i as int)) by {
                assert forall|j: int| 0 <= j < i implies spec_select_field(
                    #[trigger] select_fields@[j],
                    corrs,
                ) is Ok by {
                    assert(spec_select_field(select_fields@[j], corrs) == Ok::<
                        AliasedFieldNameView,
                        SqlErrorView,
                    >(out@[j]@));
                }
            }
            let res = Self::select_field_into_aliased_field_name(
                &select_fields[i],
                from_item_correlations.as_slice(),
            );
            match res {
                Ok(afn) => {
                    out.push(afn);
                },
                Err(e) => {
                    proof {
                        let ghost k = i as int;
                        assert(forall|j: int|
                            0 <= j < k ==> spec_select_field(#[trigger] select_fields@[j], corrs)
                                is Ok);
                        assert(first_failure_at(self.select_syntax.fields@, corrs, k, sql_error_of(e)));

                    }
                    return Err(e);
                },
            }
            i = i + 1;
        }
        Ok(out)
    }

    /// Resolves one SELECT field, which must be a field reference.
    pub fn select_field_into_aliased_field_name(
        select_field: &SelectFieldSyntax,
        from_item_correlations: &[AliasedCorrelationName],
    ) -> (r: Result<AliasedFieldName, SpringError>)
        requires
            is_field_pointer(*select_field),
            from_item_correlations@.len() >= 1,
        ensures
            match r {
                Ok(a) => spec_select_field(*select_field, corrs_view(from_item_correlations@))
                    == Ok::<AliasedFieldNameView, SqlErrorView>(a@),
                Err(e) => spec_select_field(*select_field, corrs_view(from_item_correlations@))
                    == Err::<AliasedFieldNameView, SqlErrorView>(sql_error_of(e)),
            },
            sql_errors_only(r),
    {
        proof {
            reveal(spec_select_field);
        }
        match &select_field.expression {
            Expression::FieldPointer(ptr) => {
                let field_name = Self::field_name(ptr, from_item_correlations)?;
                let afn = AliasedFieldName::new(field_name, clone_opt_string(&select_field.alias));
                Ok(afn)
            },
            _ => {
                // excluded by the precondition
                Err(SpringError::Sql(SqlError::AmbiguousColumn { attr: String::new() }))
            },
        }
    }

    /// Resolves a field pointer against the FROM items' correlations.
    ///
    /// Fails with `UnknownCorrelation` when the pointer's prefix names none
    /// of them, and with `AmbiguousColumn` when it has no prefix and there
    /// is more than one correlation.
    pub fn field_name(pointer: &FieldPointer, from_item_correlations: &[AliasedCorrelationName]) -> (r:
        Result<FieldName, SpringError>)
        requires
            from_item_correlations@.len() >= 1,
        ensures
            field_result_view(r) == spec_field_name(pointer@, corrs_view(from_item_correlations@)),
            sql_errors_only(r),
    {
        match pointer.prefix() {
            Some(corr) => Self::field_name_with_prefix(corr, pointer.attr(), from_item_correlations),
            None => Self::field_name_without_prefix(pointer.attr(), from_item_correlations),
        }
    }

    /// Resolves `prefix.attr` to the first correlation that `prefix` names.
    pub fn field_name_with_prefix(
        prefix: &String,
        attr: &String,
        from_item_correlations: &[AliasedCorrelationName],
    ) -> (r: Result<FieldName, SpringError>)
        requires
            from_item_correlations@.len() >= 1,
        ensures
            field_result_view(r) == spec_field_name_with_prefix(
                prefix@,
                attr@,
                corrs_view(from_item_correlations@),
            ),
            sql_errors_only(r),
    {
        let pointer = FieldPointer { prefix: Some(prefix.clone()), attr: attr.clone() };
        let ghost corrs = corrs_view(from_item_correlations@);
        let n = from_item_correlations.len();
        let mut i: usize = 0;
        while i < n
            invariant
                n == from_item_correlations@.len(),
                corrs == corrs_view(from_item_correlations@),
                pointer@ == (FieldPointerView { prefix: Some(prefix@), attr: attr@ }),
                i <= n,
                forall|j: int| 0 <= j < i ==> !corrs[j].matches_name(prefix@),
            decreases n - i,
        {
            let from_item_corr = &from_item_correlations[i];
            assert(corrs[i as int] == from_item_corr@);
            let candidate = AliasedFieldName::new(
                FieldName::new(from_item_corr.clone(), attr.clone()),
                None,
            );
            if candidate.matches(&pointer) {
                proof {
                    lemma_first_match_unique(corrs, prefix@, i as int);
                }
                return Ok(candidate.field_name);
            }
            i = i + 1;
        }
        Err(SpringError::Sql(SqlError::UnknownCorrelation { prefix: prefix.clone(), attr: attr.clone() }))
    }

    /// Resolves an unprefixed `attr`; there must be a single correlation.
    pub fn field_name_without_prefix(
        attr: &String,
        from_item_correlations: &[AliasedCorrelationName],
    ) -> (r: Result<FieldName, SpringError>)
        requires
            from_item_correlations@.len() >= 1,
        ensures
            field_result_view(r) == spec_field_name_without_prefix(
                attr@,
                corrs_view(from_item_correlations@),
            ),
            sql_errors_only(r),
    {
        if from_item_correlations.len() > 1 {
            return Err(SpringError::Sql(SqlError::AmbiguousColumn { attr: attr.clone() }));
        }
        let from_item_correlation = from_item_correlations[0].clone();
        Ok(FieldName::new(from_item_correlation, attr.clone()))
    }
}

/// Some correlation that `prefix` names gives a first such correlation.
proof fn lemma_first_match_exists(corrs: Seq<CorrelationView>, prefix: Seq<char>, k: int)
    requires
        0 <= k < corrs.len(),
        corrs[k].matches_name(prefix),
    ensures
        exists|f: int| is_first_match(corrs, prefix, f),
    decreases k,
{
    if exists|j: int| 0 <= j < k && corrs[j].matches_name(prefix) {
        let j = choose|j: int| 0 <= j < k && corrs[j].matches_name(prefix);
        lemma_first_match_exists(corrs, prefix, j);
    } else {
        assert(is_first_match(corrs, prefix, k));
    }
}

/// A field reference resolves exactly when its prefix names one of the FROM
/// items' correlations, or, without a prefix, when there is a single
/// correlation; the resolved field keeps the referenced attribute and takes
/// one of those correlations, one that the prefix names.
pub proof fn law_field_resolution(p: FieldPointerView, corrs: Seq<CorrelationView>)
    requires
        corrs.len() >= 1,
    ensures
        spec_field_name(p, corrs) is Ok <==> match p.prefix {
            Some(prefix) => exists|k: int| 0 <= k < corrs.len() && corrs[k].matches_name(prefix),
            None => corrs.len() == 1,
        },
        spec_field_name(p, corrs) matches Ok(f) ==> {
            &&& f.attr == p.attr
            &&& corrs.contains(f.corr)
            &&& p.prefix matches Some(prefix) ==> f.corr.matches_name(prefix)
        },
{
    match p.prefix {
        Some(prefix) => {
            if exists|k: int| 0 <= k < corrs.len() && corrs[k].matches_name(prefix) {
                let k = choose|k: int| 0 <= k < corrs.len() && corrs[k].matches_name(prefix);
                lemma_first_match_exists(corrs, prefix, k);
            }
            if exists|f: int| is_first_match(corrs, prefix, f) {
                let f = choose|f: int| is_first_match(corrs, prefix, f);
                assert(corrs.contains(corrs[f]));
            }
        },
        None => {
            assert(corrs.contains(corrs[0]));
        },
    }
}

} // verus!
