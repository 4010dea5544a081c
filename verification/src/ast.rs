//! The abstract syntax tree of zlang.
//!
//! Every syntactic shape the grammar can produce is one variant of a closed
//! family: [`Program`] at the root, the [`Statement`] and [`Expression`] sum
//! types, the operator families, and the small leaf entities. An entity's
//! shape is its variant; the [`Kind`] tag is reported by each entity's
//! `kind` method and can never diverge from the shape, because it is not
//! stored.
//!
//! Entities are built bottom-up while the external parsing engine reduces
//! grammar productions: the "empty" constructors leave every optional field
//! absent, and productions fill them in. Which absences are legitimate in a
//! finished tree and which mark an unfinished parse is written down once, in
//! the completeness predicates ([`stmt_complete`], [`expr_complete`]), and
//! decided executably by the `is_complete` methods.

use vstd::prelude::*;

verus! {

/// The closed set of discriminants, one per syntactic shape.
///
/// The tag exists for cheap introspection and serialization only: an
/// entity's shape is its variant, and pattern matching is the mechanism for
/// dispatch. Each entity's `kind` method returns the one tag naming its own
/// shape.
#[derive(Clone, Copy, Debug, PartialEq, Eq, Structural)]
pub enum Kind {
    Program,
    Function,
    EmptyStatement,
    BlockStatement,
    ExpressionStatement,
    IfStatement,
    ReturnStatement,
    WhileStatement,
    ForInStatement,
    ArrayExpression,
    AssignmentExpression,
    LogicalExpression,
    CallExpression,
    BinaryExpression,
    AssignmentOperator,
    Identifier,
    Literal,
    LogicalOperator,
    Property,
    UnaryOperator,
    BinaryOperator,
}

/// A tag paired with the span of source text it was read from; the shape
/// every entity conceptually shares.
#[derive(Clone, Copy, Debug, PartialEq, Eq, Structural)]
pub struct Node {
    pub kind: Kind,
    pub loc: crate::location::SourceLocation,
}

/// The root entity: the ordered body of a compiled unit, in source order.
#[derive(Debug)]
pub struct Program {
    pub body: Vec<Box<Statement>>,
}

impl Program {
    /// A fresh program with an empty body.
    pub fn new() -> (r: Program)
        ensures
            r.body@ == Seq::<Box<Statement>>::empty(),
            r.body@.len() == 0,
    {
        Program { body: Vec::new() }
    }

    /// The tag naming this shape.
    pub fn kind(&self) -> (k: Kind)
        ensures
            k == Kind::Program,
    {
        Kind::Program
    }
}

/// A function: an optional name (absent for anonymous functions), ordered
/// formal parameters, and a block body.
#[derive(Debug)]
pub struct Function {
    pub id: Option<Identifier>,
    pub params: Vec<Property>,
    pub body: BlockStatement,
}

impl Function {
    /// The tag naming this shape.
    pub fn kind(&self) -> (k: Kind)
        ensures
            k == Kind::Function,
    {
        Kind::Function
    }
}

/// A name appearing in source text; a leaf entity.
#[derive(Clone, Debug, PartialEq)]
pub struct Identifier {
    pub name: String,
}

impl Identifier {
    /// The tag naming this shape.
    pub fn kind(&self) -> (k: Kind)
        ensures
            k == Kind::Identifier,
    {
        Kind::Identifier
    }
}

/// A formal parameter binding: one identifier.
#[derive(Clone, Debug, PartialEq)]
pub struct Property {
    pub id: Identifier,
}

impl Property {
    /// The tag naming this shape.
    pub fn kind(&self) -> (k: Kind)
        ensures
            k == Kind::Property,
    {
        Kind::Property
    }
}

/// Every statement form the grammar can produce.
#[derive(Debug)]
pub enum Statement {
    EmptyStatement(EmptyStatement),
    BlockStatement(BlockStatement),
    ExpressionStatement(ExpressionStatement),
    IfStatement(IfStatement),
    ReturnStatement(ReturnStatement),
    WhileStatement(WhileStatement),
    ForInStatement(ForInStatement),
}

/// The tag that names a statement's variant.
pub open spec fn stmt_kind(s: Statement) -> Kind {
    match s {
        Statement::EmptyStatement(_) => Kind::EmptyStatement,
        Statement::BlockStatement(_) => Kind::BlockStatement,
        Statement::ExpressionStatement(_) => Kind::ExpressionStatement,
        Statement::IfStatement(_) => Kind::IfStatement,
        Statement::ReturnStatement(_) => Kind::ReturnStatement,
        Statement::WhileStatement(_) => Kind::WhileStatement,
        Statement::ForInStatement(_) => Kind::ForInStatement,
    }
}

impl Statement {
    /// The tag naming this statement's variant.
    pub fn kind(&self) -> (k: Kind)
        ensures
            k == stmt_kind(*self),
    {
        match self {
            Statement::EmptyStatement(_) => Kind::EmptyStatement,
            Statement::BlockStatement(_) => Kind::BlockStatement,
            Statement::ExpressionStatement(_) => Kind::ExpressionStatement,
            Statement::IfStatement(_) => Kind::IfStatement,
            Statement::ReturnStatement(_) => Kind::ReturnStatement,
            Statement::WhileStatement(_) => Kind::WhileStatement,
            Statement::ForInStatement(_) => Kind::ForInStatement,
        }
    }
}

/// A statement with no effect.
#[derive(Clone, Copy, Debug, PartialEq, Eq, Structural)]
pub struct EmptyStatement {}

impl EmptyStatement {
    /// A fresh empty statement.
    pub fn new() -> (r: EmptyStatement) {
        EmptyStatement {}
    }

    /// The tag naming this shape.
    pub fn kind(&self) -> (k: Kind)
        ensures
            k == Kind::EmptyStatement,
    {
        Kind::EmptyStatement
    }
}

/// A braced sequence of statements. An absent body means "no body assigned
/// yet", a transient parse state; a finished tree always has one.
#[derive(Debug)]
pub struct BlockStatement {
    pub body: Option<Vec<Box<Statement>>>,
}

impl BlockStatement {
    /// A fresh block with no body assigned yet.
    pub fn new() -> (r: BlockStatement)
        ensures
            r.body is None,
    {
        BlockStatement { body: None }
    }

    /// The tag naming this shape.
    pub fn kind(&self) -> (k: Kind)
        ensures
            k == Kind::BlockStatement,
    {
        Kind::BlockStatement
    }
}

/// An expression evaluated for its effect. The expression is absent only
/// while the enclosing production is still reducing.
#[derive(Debug)]
pub struct ExpressionStatement {
    pub expression: Option<Expression>,
}

impl ExpressionStatement {
    /// A fresh expression statement with no expression assigned yet.
    pub fn new() -> (r: ExpressionStatement)
        ensures
            r.expression is None,
    {
        ExpressionStatement { expression: None }
    }

    /// The tag naming this shape.
    pub fn kind(&self) -> (k: Kind)
        ensures
            k == Kind::ExpressionStatement,
    {
        Kind::ExpressionStatement
    }
}

/// A conditional. `alternate` is the else-branch and is legitimately absent
/// in a finished tree; `test` and `consequent` are absent only mid-parse.
#[derive(Debug)]
pub struct IfStatement {
    pub test: Option<Box<Expression>>,
    pub consequent: Option<Box<Statement>>,
    pub alternate: Option<Box<Statement>>,
}

impl IfStatement {
    /// A fresh conditional with every field absent.
    pub fn new() -> (r: IfStatement)
        ensures
            r.test is None,
            r.consequent is None,
            r.alternate is None,
    {
        IfStatement { test: None, consequent: None, alternate: None }
    }

    /// The tag naming this shape.
    pub fn kind(&self) -> (k: Kind)
        ensures
            k == Kind::IfStatement,
    {
        Kind::IfStatement
    }
}

/// A return. A legitimately absent argument is a bare `return`.
#[derive(Debug)]
pub struct ReturnStatement {
    pub argument: Option<Expression>,
}

impl ReturnStatement {
    /// A fresh return with no argument.
    pub fn new() -> (r: ReturnStatement)
        ensures
            r.argument is None,
    {
        ReturnStatement { argument: None }
    }

    /// The tag naming this shape.
    pub fn kind(&self) -> (k: Kind)
        ensures
            k == Kind::ReturnStatement,
    {
        Kind::ReturnStatement
    }
}

/// A while loop. Both fields are absent only mid-parse.
#[derive(Debug)]
pub struct WhileStatement {
    pub test: Option<Expression>,
    pub body: Option<BlockStatement>,
}

impl WhileStatement {
    /// A fresh while loop with every field absent.
    pub fn new() -> (r: WhileStatement)
        ensures
            r.test is None,
            r.body is None,
    {
        WhileStatement { test: None, body: None }
    }

    /// The tag naming this shape.
    pub fn kind(&self) -> (k: Kind)
        ensures
            k == Kind::WhileStatement,
    {
        Kind::WhileStatement
    }
}

/// A for-in loop. `each` distinguishes for-each iteration semantics and
/// defaults to true until a production sets it false; the other fields are
/// absent only mid-parse.
#[derive(Debug)]
pub struct ForInStatement {
    pub left: Option<Expression>,
    pub right: Option<Expression>,
    pub body: Option<BlockStatement>,
    pub each: bool,
}

impl ForInStatement {
    /// A fresh for-in loop: every field absent, for-each semantics on.
    pub fn new() -> (r: ForInStatement)
        ensures
            r.left is None,
            r.right is None,
            r.body is None,
            r.each == true,
    {
        ForInStatement { left: None, right: None, body: None, each: true }
    }

    /// The tag naming this shape.
    pub fn kind(&self) -> (k: Kind)
        ensures
            k == Kind::ForInStatement,
    {
        Kind::ForInStatement
    }
}

/// Every expression form the grammar can produce.
#[derive(Debug)]
pub enum Expression {
    ArrayExpression(Box<ArrayExpression>),
    AssignmentExpression(Box<AssignmentExpression>),
    LogicalExpression(Box<LogicalExpression>),
    CallExpression(Box<CallExpression>),
    BinaryExpression(Box<BinaryExpression>),
}

/// The tag that names an expression's variant.
pub open spec fn expr_kind(e: Expression) -> Kind {
    match e {
        Expression::ArrayExpression(_) => Kind::ArrayExpression,
        Expression::AssignmentExpression(_) => Kind::AssignmentExpression,
        Expression::LogicalExpression(_) => Kind::LogicalExpression,
        Expression::CallExpression(_) => Kind::CallExpression,
        Expression::BinaryExpression(_) => Kind::BinaryExpression,
    }
}

impl Expression {
    /// The tag naming this expression's variant.
    pub fn kind(&self) -> (k: Kind)
        ensures
            k == expr_kind(*self),
    {
        match self {
            Expression::ArrayExpression(_) => Kind::ArrayExpression,
            Expression::AssignmentExpression(_) => Kind::AssignmentExpression,
            Expression::LogicalExpression(_) => Kind::LogicalExpression,
            Expression::CallExpression(_) => Kind::CallExpression,
            Expression::BinaryExpression(_) => Kind::BinaryExpression,
        }
    }
}

/// An array literal. The element sequence itself is legitimately absent.
#[derive(Debug)]
pub struct ArrayExpression {
    pub elements: Option<Vec<Expression>>,
}

impl ArrayExpression {
    /// A fresh array literal with no element sequence.
    pub fn new() -> (r: ArrayExpression)
        ensures
            r.elements is None,
    {
        ArrayExpression { elements: None }
    }

    /// The tag naming this shape.
    pub fn kind(&self) -> (k: Kind)
        ensures
            k == Kind::ArrayExpression,
    {
        Kind::ArrayExpression
    }
}

/// An assignment. All three fields are absent only mid-parse.
#[derive(Debug)]
pub struct AssignmentExpression {
    pub operator: Option<AssignmentOperator>,
    pub left: Option<Expression>,
    pub right: Option<Expression>,
}

impl AssignmentExpression {
    /// A fresh assignment with every field absent.
    pub fn new() -> (r: AssignmentExpression)
        ensures
            r.operator is None,
            r.left is None,
            r.right is None,
    {
        AssignmentExpression { operator: None, left: None, right: None }
    }

    /// The tag naming this shape.
    pub fn kind(&self) -> (k: Kind)
        ensures
            k == Kind::AssignmentExpression,
    {
        Kind::AssignmentExpression
    }
}

/// A short-circuiting connective. All three fields are absent only mid-parse.
#[derive(Debug)]
pub struct LogicalExpression {
    pub operator: Option<LogicalOperator>,
    pub left: Option<Expression>,
    pub right: Option<Expression>,
}

impl LogicalExpression {
    /// A fresh logical expression with every field absent.
    pub fn new() -> (r: LogicalExpression)
        ensures
            r.operator is None,
            r.left is None,
            r.right is None,
    {
        LogicalExpression { operator: None, left: None, right: None }
    }

    /// The tag naming this shape.
    pub fn kind(&self) -> (k: Kind)
        ensures
            k == Kind::LogicalExpression,
    {
        Kind::LogicalExpression
    }
}

/// A call. Argument slots are individually optional, modeling elided
/// arguments: `[Some(x), None, Some(y)]` keeps the absent middle slot in
/// place. The callee is absent only mid-parse.
#[derive(Debug)]
pub struct CallExpression {
    pub callee: Option<Box<Expression>>,
    pub arguments: Option<Vec<Option<Box<Expression>>>>,
}

impl CallExpression {
    /// A fresh call with every field absent.
    pub fn new() -> (r: CallExpression)
        ensures
            r.callee is None,
            r.arguments is None,
    {
        CallExpression { callee: None, arguments: None }
    }

    /// The tag naming this shape.
    pub fn kind(&self) -> (k: Kind)
        ensures
            k == Kind::CallExpression,
    {
        Kind::CallExpression
    }
}

/// A binary arithmetic, bitwise or comparison expression. All three fields
/// are absent only mid-parse.
#[derive(Debug)]
pub struct BinaryExpression {
    pub operator: Option<BinaryOperator>,
    pub left: Option<Expression>,
    pub right: Option<Expression>,
}

impl BinaryExpression {
    /// A fresh binary expression with every field absent.
    pub fn new() -> (r: BinaryExpression)
        ensures
            r.operator is None,
            r.left is None,
            r.right is None,
    {
        BinaryExpression { operator: None, left: None, right: None }
    }

    /// The tag naming this shape.
    pub fn kind(&self) -> (k: Kind)
        ensures
            k == Kind::BinaryExpression,
    {
        Kind::BinaryExpression
    }
}

/// Which expressions count as finished tree nodes.
///
/// An optional field is allowed to stay absent only where the grammar says
/// so: the element sequence of an array literal, the argument sequence of a
/// call, and individual call-argument slots (elided arguments). Every other
/// absence marks a tree still under construction.
pub open spec fn expr_complete(e: Expression) -> bool
    decreases e,
{
    match e {
        Expression::ArrayExpression(a) => match (*a).elements {
            None => true,
            Some(v) => forall|i: int| 0 <= i < v@.len() ==> expr_complete(#[trigger] v@[i]),
        },
        Expression::AssignmentExpression(a) => {
            &&& (*a).operator is Some
            &&& (*a).left matches Some(l) && expr_complete(l)
            &&& (*a).right matches Some(r) && expr_complete(r)
        },
        Expression::LogicalExpression(l) => {
            &&& (*l).operator is Some
            &&& (*l).left matches Some(le) && expr_complete(le)
            &&& (*l).right matches Some(re) && expr_complete(re)
        },
        Expression::CallExpression(c) => {
            &&& (*c).callee matches Some(cal) && expr_complete(*cal)
            &&& match (*c).arguments {
                None => true,
                Some(args) => forall|i: int|
                    0 <= i < args@.len() ==> (#[trigger] args@[i] matches Some(x)
                        ==> expr_complete(*x)),
            }
        },
        Expression::BinaryExpression(b) => {
            &&& (*b).operator is Some
            &&& (*b).left matches Some(le) && expr_complete(le)
            &&& (*b).right matches Some(re) && expr_complete(re)
        },
    }
}

/// Which statements count as finished tree nodes.
///
/// The legitimately optional fields are the else-branch of a conditional and
/// the argument of a return; every other absence marks a tree still under
/// construction.
pub open spec fn stmt_complete(s: Statement) -> bool
    decreases s,
{
    match s {
        Statement::EmptyStatement(_) => true,
        Statement::BlockStatement(b) => block_complete(b),
        Statement::ExpressionStatement(es) => es.expression matches Some(e) && expr_complete(e),
        Statement::IfStatement(i) => {
            &&& i.test matches Some(t) && expr_complete(*t)
            &&& i.consequent matches Some(c) && stmt_complete(*c)
            &&& (i.alternate matches Some(a) ==> stmt_complete(*a))
        },
        Statement::ReturnStatement(r) => r.argument matches Some(e) ==> expr_complete(e),
        Statement::WhileStatement(w) => {
            &&& w.test matches Some(t) && expr_complete(t)
            &&& w.body matches Some(b) && block_complete(b)
        },
        Statement::ForInStatement(f) => {
            &&& f.left matches Some(l) && expr_complete(l)
            &&& f.right matches Some(r) && expr_complete(r)
            &&& f.body matches Some(b) && block_complete(b)
        },
    }
}

/// Which blocks count as finished tree nodes: the body must have been
/// assigned, and every statement in it must be finished.
pub open spec fn block_complete(b: BlockStatement) -> bool
    decreases b,
{
    b.body matches Some(v) && forall|i: int|
        0 <= i < v@.len() ==> stmt_complete(*#[trigger] v@[i])
}

/// Which functions count as finished tree nodes: the body must be a
/// finished block. The name is legitimately absent (anonymous functions).
pub open spec fn function_complete(f: Function) -> bool {
    block_complete(f.body)
}

/// Which programs count as finished trees: every statement of the body is
/// finished.
pub open spec fn program_complete(p: Program) -> bool {
    forall|i: int| 0 <= i < p.body@.len() ==> stmt_complete(*#[trigger] p.body@[i])
}

impl Expression {
    /// Decides [`expr_complete`]: whether this expression is a finished
    /// tree node, with every absence among its descendants a legitimate one.
    #[verifier::loop_isolation(false)]
    pub fn is_complete(&self) -> (r: bool)
        ensures
            r == expr_complete(*self),
        decreases *self,
    {
        match self {
            Expression::ArrayExpression(a) => match &a.elements {
                None => true,
                Some(v) => {
                    let mut i: usize = 0;
                    while i < v.len()
                        invariant
                            0 <= i <= v@.len(),
                            forall|j: int| 0 <= j < i ==> expr_complete(#[trigger] v@[j]),
                        decreases v@.len() - i,
                    {
                        if !v[i].is_complete() {
                            return false;
                        }
                        i = i + 1;
                    }
                    true
                },
            },
            Expression::AssignmentExpression(a) => {
                a.operator.is_some() && match &a.left {
                    None => false,
                    Some(l) => l.is_complete(),
                } && match &a.right {
                    None => false,
                    Some(r) => r.is_complete(),
                }
            },
            Expression::LogicalExpression(l) => {
                l.operator.is_some() && match &l.left {
                    None => false,
                    Some(le) => le.is_complete(),
                } && match &l.right {
                    None => false,
                    Some(re) => re.is_complete(),
                }
            },
            Expression::CallExpression(c) => {
                let callee_ok = match &c.callee {
                    None => false,
                    Some(cal) => cal.is_complete(),
                };
                let args_ok = match &c.arguments {
                    None => true,
                    Some(args) => {
                        let mut i: usize = 0;
                        let mut ok = true;
                        while i < args.len()
                            invariant
                                0 <= i <= args@.len(),
                                ok == (forall|j: int|
                                    0 <= j < i ==> (#[trigger] args@[j] matches Some(x)
                                        ==> expr_complete(*x))),
                            decreases args@.len() - i,
                        {
                            match &args[i] {
                                None => {},
                                Some(x) => {
                                    if !x.is_complete() {
                                        ok = false;
                                    }
                                },
                            }
                            i = i + 1;
                        }
                        ok
                    },
                };
                callee_ok && args_ok
            },
            Expression::BinaryExpression(b) => {
                b.operator.is_some() && match &b.left {
                    None => false,
                    Some(le) => le.is_complete(),
                } && match &b.right {
                    None => false,
                    Some(re) => re.is_complete(),
                }
            },
        }
    }
}

impl Statement {
    /// Decides [`stmt_complete`]: whether this statement is a finished tree
    /// node, with every absence among its descendants a legitimate one.
    pub fn is_complete(&self) -> (r: bool)
        ensures
            r == stmt_complete(*self),
        decreases *self,
    {
        match self {
            Statement::EmptyStatement(_) => true,
            Statement::BlockStatement(b) => b.is_complete(),
            Statement::ExpressionStatement(es) => match &es.expression {
                None => false,
                Some(e) => e.is_complete(),
            },
            Statement::IfStatement(i) => {
                let test_ok = match &i.test {
                    None => false,
                    Some(t) => t.is_complete(),
                };
                let consequent_ok = match &i.consequent {
                    None => false,
                    Some(c) => c.is_complete(),
                };
                let alternate_ok = match &i.alternate {
                    None => true,
                    Some(a) => a.is_complete(),
                };
                test_ok && consequent_ok && alternate_ok
            },
            Statement::ReturnStatement(r) => match &r.argument {
                None => true,
                Some(e) => e.is_complete(),
            },
            Statement::WhileStatement(w) => {
                let test_ok = match &w.test {
                    None => false,
                    Some(t) => t.is_complete(),
                };
                let body_ok = match &w.body {
                    None => false,
                    Some(b) => b.is_complete(),
                };
                test_ok && body_ok
            },
            Statement::ForInStatement(f) => {
                let left_ok = match &f.left {
                    None => false,
                    Some(l) => l.is_complete(),
                };
                let right_ok = match &f.right {
                    None => false,
                    Some(r) => r.is_complete(),
                };
                let body_ok = match &f.body {
                    None => false,
                    Some(b) => b.is_complete(),
                };
                left_ok && right_ok && body_ok
            },
        }
    }
}

impl BlockStatement {
    /// Decides [`block_complete`]: whether this block has a body assigned
    /// and every statement in it is finished.
    #[verifier::loop_isolation(false)]
    pub fn is_complete(&self) -> (r: bool)
        ensures
            r == block_complete(*self),
        decreases *self,
    {
        match &self.body {
            None => false,
            Some(v) => {
                let mut i: usize = 0;
                while i < v.len()
                    invariant
                        0 <= i <= v@.len(),
                        forall|j: int| 0 <= j < i ==> stmt_complete(*#[trigger] v@[j]),
                    decreases v@.len() - i,
                {
                    if !v[i].is_complete() {
                        return false;
                    }
                    i = i + 1;
                }
                true
            },
        }
    }
}

impl Function {
    /// Decides [`function_complete`]: whether this function's body is a
    /// finished block.
    pub fn is_complete(&self) -> (r: bool)
        ensures
            r == function_complete(*self),
    {
        self.body.is_complete()
    }
}

impl Program {
    /// Decides [`program_complete`]: whether every statement of the body is
    /// finished.
    #[verifier::loop_isolation(false)]
    pub fn is_complete(&self) -> (r: bool)
        ensures
            r == program_complete(*self),
    {
        let mut i: usize = 0;
        while i < self.body.len()
            invariant
                0 <= i <= self.body@.len(),
                forall|j: int| 0 <= j < i ==> stmt_complete(*#[trigger] self.body@[j]),
            decreases self.body@.len() - i,
        {
            if !self.body[i].is_complete() {
                return false;
            }
            i = i + 1;
        }
        true
    }
}

/// The closed value set of assignment operators.
#[derive(Clone, Copy, Debug, PartialEq, Eq, Structural)]
pub enum EnumAssignmentOperators {
    Assign,
    PlusAssign,
    MinusAssign,
    TimesAssign,
    DivAssign,
    ModAssign,
    LShiftAssign,
    RShiftAssign,
    OrAssign,
    XorAssign,
    AndAssign,
}

/// The lexeme that names an assignment operator in source text.
pub open spec fn assignment_operator_symbol(v: EnumAssignmentOperators) -> Seq<char> {
    match v {
        EnumAssignmentOperators::Assign => "="@,
        EnumAssignmentOperators::PlusAssign => "+="@,
        EnumAssignmentOperators::MinusAssign => "-="@,
        EnumAssignmentOperators::TimesAssign => "*="@,
        EnumAssignmentOperators::DivAssign => "/="@,
        EnumAssignmentOperators::ModAssign => "%="@,
        EnumAssignmentOperators::LShiftAssign => "<<="@,
        EnumAssignmentOperators::RShiftAssign => ">>="@,
        EnumAssignmentOperators::OrAssign => "|="@,
        EnumAssignmentOperators::XorAssign => "^="@,
        EnumAssignmentOperators::AndAssign => "&="@,
    }
}

impl EnumAssignmentOperators {
    /// The operator's lexeme. The match is total: every value of the family
    /// is handled, with no default arm.
    pub fn symbol(&self) -> (r: &'static str)
        ensures
            r@ == assignment_operator_symbol(*self),
    {
        match self {
            EnumAssignmentOperators::Assign => "=",
            EnumAssignmentOperators::PlusAssign => "+=",
            EnumAssignmentOperators::MinusAssign => "-=",
            EnumAssignmentOperators::TimesAssign => "*=",
            EnumAssignmentOperators::DivAssign => "/=",
            EnumAssignmentOperators::ModAssign => "%=",
            EnumAssignmentOperators::LShiftAssign => "<<=",
            EnumAssignmentOperators::RShiftAssign => ">>=",
            EnumAssignmentOperators::OrAssign => "|=",
            EnumAssignmentOperators::XorAssign => "^=",
            EnumAssignmentOperators::AndAssign => "&=",
        }
    }
}

/// Distinct assignment operator values have distinct lexemes: the symbol
/// identifies the value within its family.
pub proof fn lemma_assignment_operator_symbol_injective(
    a: EnumAssignmentOperators,
    b: EnumAssignmentOperators,
)
    ensures
        assignment_operator_symbol(a) == assignment_operator_symbol(b) ==> a == b,
{
    reveal_strlit("=");
    reveal_strlit("+=");
    reveal_strlit("-=");
    reveal_strlit("*=");
    reveal_strlit("/=");
    reveal_strlit("%=");
    reveal_strlit("<<=");
    reveal_strlit(">>=");
    reveal_strlit("|=");
    reveal_strlit("^=");
    reveal_strlit("&=");
    assert("="@.len() == 1 && "="@[0] == '=');
    assert("+="@.len() == 2 && "+="@[0] == '+' && "+="@[1] == '=');
    assert("-="@.len() == 2 && "-="@[0] == '-' && "-="@[1] == '=');
    assert("*="@.len() == 2 && "*="@[0] == '*' && "*="@[1] == '=');
    assert("/="@.len() == 2 && "/="@[0] == '/' && "/="@[1] == '=');
    assert("%="@.len() == 2 && "%="@[0] == '%' && "%="@[1] == '=');
    assert("<<="@.len() == 3 && "<<="@[0] == '<' && "<<="@[1] == '<' && "<<="@[2] == '=');
    assert(">>="@.len() == 3 && ">>="@[0] == '>' && ">>="@[1] == '>' && ">>="@[2] == '=');
    assert("|="@.len() == 2 && "|="@[0] == '|' && "|="@[1] == '=');
    assert("^="@.len() == 2 && "^="@[0] == '^' && "^="@[1] == '=');
    assert("&="@.len() == 2 && "&="@[0] == '&' && "&="@[1] == '=');
}

/// The assignment operator entity: one value of its closed family.
#[derive(Clone, Copy, Debug, PartialEq, Eq, Structural)]
pub struct AssignmentOperator {
    pub value: EnumAssignmentOperators,
}

impl AssignmentOperator {
    /// Wraps one assignment operator value.
    pub fn new(operator: EnumAssignmentOperators) -> (r: AssignmentOperator)
        ensures
            r.value == operator,
    {
        AssignmentOperator { value: operator }
    }

    /// The tag naming this shape.
    pub fn kind(&self) -> (k: Kind)
        ensures
            k == Kind::AssignmentOperator,
    {
        Kind::AssignmentOperator
    }
}

/// The closed value set of short-circuiting logical operators.
#[derive(Clone, Copy, Debug, PartialEq, Eq, Structural)]
pub enum EnumLogicalOperators {
    LogicalAnd,
    LogicalOr,
}

/// The lexeme that names a logical operator in source text.
pub open spec fn logical_operator_symbol(v: EnumLogicalOperators) -> Seq<char> {
    match v {
        EnumLogicalOperators::LogicalAnd => "&&"@,
        EnumLogicalOperators::LogicalOr => "||"@,
    }
}

impl EnumLogicalOperators {
    /// The operator's lexeme. The match is total: every value of the family
    /// is handled, with no default arm.
    pub fn symbol(&self) -> (r: &'static str)
        ensures
            r@ == logical_operator_symbol(*self),
    {
        match self {
            EnumLogicalOperators::LogicalAnd => "&&",
            EnumLogicalOperators::LogicalOr => "||",
        }
    }
}

/// Distinct logical operator values have distinct lexemes: the symbol
/// identifies the value within its family.
pub proof fn lemma_logical_operator_symbol_injective(
    a: EnumLogicalOperators,
    b: EnumLogicalOperators,
)
    ensures
        logical_operator_symbol(a) == logical_operator_symbol(b) ==> a == b,
{
    reveal_strlit("&&");
    reveal_strlit("||");
    assert("&&"@.len() == 2 && "&&"@[0] == '&' && "&&"@[1] == '&');
    assert("||"@.len() == 2 && "||"@[0] == '|' && "||"@[1] == '|');
}

/// The logical operator entity: one value of its closed family.
#[derive(Clone, Copy, Debug, PartialEq, Eq, Structural)]
pub struct LogicalOperator {
    pub value: EnumLogicalOperators,
}

impl LogicalOperator {
    /// Wraps one logical operator value.
    pub fn new(operator: EnumLogicalOperators) -> (r: LogicalOperator)
        ensures
            r.value == operator,
    {
        LogicalOperator { value: operator }
    }

    /// The tag naming this shape.
    pub fn kind(&self) -> (k: Kind)
        ensures
            k == Kind::LogicalOperator,
    {
        Kind::LogicalOperator
    }
}

/// The closed value set of unary operators.
#[derive(Clone, Copy, Debug, PartialEq, Eq, Structural)]
pub enum EnumUnaryOperators {
    Not,
    Xor,
    Typeof,
}

/// The lexeme that names a unary operator in source text.
pub open spec fn unary_operator_symbol(v: EnumUnaryOperators) -> Seq<char> {
    match v {
        EnumUnaryOperators::Not => "!"@,
        EnumUnaryOperators::Xor => "^"@,
        EnumUnaryOperators::Typeof => "typeof"@,
    }
}

impl EnumUnaryOperators {
    /// The operator's lexeme. The match is total: every value of the family
    /// is handled, with no default arm.
    pub fn symbol(&self) -> (r: &'static str)
        ensures
            r@ == unary_operator_symbol(*self),
    {
        match self {
            EnumUnaryOperators::Not => "!",
            EnumUnaryOperators::Xor => "^",
            EnumUnaryOperators::Typeof => "typeof",
        }
    }
}

/// Distinct unary operator values have distinct lexemes: the symbol
/// identifies the value within its family.
pub proof fn lemma_unary_operator_symbol_injective(a: EnumUnaryOperators, b: EnumUnaryOperators)
    ensures
        unary_operator_symbol(a) == unary_operator_symbol(b) ==> a == b,
{
    reveal_strlit("!");
    reveal_strlit("^");
    reveal_strlit("typeof");
    assert("!"@.len() == 1 && "!"@[0] == '!');
    assert("^"@.len() == 1 && "^"@[0] == '^');
    assert("typeof"@.len() == 6 && "typeof"@[0] == 't' && "typeof"@[1] == 'y' && "typeof"@[2] == 'p' && "typeof"@[3] == 'e' && "typeof"@[4] == 'o' && "typeof"@[5] == 'f');
}

/// The unary operator entity: one value of its closed family.
#[derive(Clone, Copy, Debug, PartialEq, Eq, Structural)]
pub struct UnaryOperator {
    pub value: EnumUnaryOperators,
}

impl UnaryOperator {
    /// Wraps one unary operator value.
    pub fn new(operator: EnumUnaryOperators) -> (r: UnaryOperator)
        ensures
            r.value == operator,
    {
        UnaryOperator { value: operator }
    }

    /// The tag naming this shape.
    pub fn kind(&self) -> (k: Kind)
        ensures
            k == Kind::UnaryOperator,
    {
        Kind::UnaryOperator
    }
}

/// The closed value set of binary operators.
#[derive(Clone, Copy, Debug, PartialEq, Eq, Structural)]
pub enum EnumBinaryOperators {
    Add,
    Minus,
    Times,
    Div,
    Mod,
    BitwiseAnd,
    BitwiseOr,
    BitwiseXor,
    Equal,
    NotEqual,
    Greater,
    GreaterEqual,
    Less,
    LessEqual,
    BitwiseLShift,
    BitwiseRShift,
}

/// The lexeme that names a binary operator in source text.
pub open spec fn binary_operator_symbol(v: EnumBinaryOperators) -> Seq<char> {
    match v {
        EnumBinaryOperators::Add => "+"@,
        EnumBinaryOperators::Minus => "-"@,
        EnumBinaryOperators::Times => "*"@,
        EnumBinaryOperators::Div => "/"@,
        EnumBinaryOperators::Mod => "%"@,
        EnumBinaryOperators::BitwiseAnd => "&"@,
        EnumBinaryOperators::BitwiseOr => "|"@,
        EnumBinaryOperators::BitwiseXor => "^"@,
        EnumBinaryOperators::Equal => "=="@,
        EnumBinaryOperators::NotEqual => "!="@,
        EnumBinaryOperators::Greater => ">"@,
        EnumBinaryOperators::GreaterEqual => ">="@,
        EnumBinaryOperators::Less => "<"@,
        EnumBinaryOperators::LessEqual => "<="@,
        EnumBinaryOperators::BitwiseLShift => "<<"@,
        EnumBinaryOperators::BitwiseRShift => ">>"@,
    }
}

impl EnumBinaryOperators {
    /// The operator's lexeme. The match is total: every value of the family
    /// is handled, with no default arm.
    pub fn symbol(&self) -> (r: &'static str)
        ensures
            r@ == binary_operator_symbol(*self),
    {
        match self {
            EnumBinaryOperators::Add => "+",
            EnumBinaryOperators::Minus => "-",
            EnumBinaryOperators::Times => "*",
            EnumBinaryOperators::Div => "/",
            EnumBinaryOperators::Mod => "%",
            EnumBinaryOperators::BitwiseAnd => "&",
            EnumBinaryOperators::BitwiseOr => "|",
            EnumBinaryOperators::BitwiseXor => "^",
            EnumBinaryOperators::Equal => "==",
            EnumBinaryOperators::NotEqual => "!=",
            EnumBinaryOperators::Greater => ">",
            EnumBinaryOperators::GreaterEqual => ">=",
            EnumBinaryOperators::Less => "<",
            EnumBinaryOperators::LessEqual => "<=",
            EnumBinaryOperators::BitwiseLShift => "<<",
            EnumBinaryOperators::BitwiseRShift => ">>",
        }
    }
}

/// Distinct binary operator values have distinct lexemes: the symbol
/// identifies the value within its family.
pub proof fn lemma_binary_operator_symbol_injective(a: EnumBinaryOperators, b: EnumBinaryOperators)
    ensures
        binary_operator_symbol(a) == binary_operator_symbol(b) ==> a == b,
{
    reveal_strlit("+");
    reveal_strlit("-");
    reveal_strlit("*");
    reveal_strlit("/");
    reveal_strlit("%");
    reveal_strlit("&");
    reveal_strlit("|");
    reveal_strlit("^");
    reveal_strlit("==");
    reveal_strlit("!=");
    reveal_strlit(">");
    reveal_strlit(">=");
    reveal_strlit("<");
    reveal_strlit("<=");
    reveal_strlit("<<");
    reveal_strlit(">>");
    assert("+"@.len() == 1 && "+"@[0] == '+');
    assert("-"@.len() == 1 && "-"@[0] == '-');
    assert("*"@.len() == 1 && "*"@[0] == '*');
    assert("/"@.len() == 1 && "/"@[0] == '/');
    assert("%"@.len() == 1 && "%"@[0] == '%');
    assert("&"@.len() == 1 && "&"@[0] == '&');
    assert("|"@.len() == 1 && "|"@[0] == '|');
    assert("^"@.len() == 1 && "^"@[0] == '^');
    assert("=="@.len() == 2 && "=="@[0] == '=' && "=="@[1] == '=');
    assert("!="@.len() == 2 && "!="@[0] == '!' && "!="@[1] == '=');
    assert(">"@.len() == 1 && ">"@[0] == '>');
    assert(">="@.len() == 2 && ">="@[0] == '>' && ">="@[1] == '=');
    assert("<"@.len() == 1 && "<"@[0] == '<');
    assert("<="@.len() == 2 && "<="@[0] == '<' && "<="@[1] == '=');
    assert("<<"@.len() == 2 && "<<"@[0] == '<' && "<<"@[1] == '<');
    assert(">>"@.len() == 2 && ">>"@[0] == '>' && ">>"@[1] == '>');
}

/// The binary operator entity: one value of its closed family.
#[derive(Clone, Copy, Debug, PartialEq, Eq, Structural)]
pub struct BinaryOperator {
    pub value: EnumBinaryOperators,
}

impl BinaryOperator {
    /// Wraps one binary operator value.
    pub fn new(operator: EnumBinaryOperators) -> (r: BinaryOperator)
        ensures
            r.value == operator,
    {
        BinaryOperator { value: operator }
    }

    /// The tag naming this shape.
    pub fn kind(&self) -> (k: Kind)
        ensures
            k == Kind::BinaryOperator,
    {
        Kind::BinaryOperator
    }
}

} // verus!
