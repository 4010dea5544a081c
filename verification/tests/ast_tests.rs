use zlang_parser::ast::{
    ArrayExpression, AssignmentExpression, AssignmentOperator, BinaryExpression, BinaryOperator,
    BlockStatement, CallExpression, EmptyStatement, EnumAssignmentOperators, EnumBinaryOperators,
    EnumLogicalOperators, EnumUnaryOperators, Expression, ExpressionStatement, ForInStatement,
    IfStatement, Kind, LogicalExpression, LogicalOperator, Program, ReturnStatement, Statement,
    UnaryOperator, WhileStatement,
};

/// A smallest complete expression: an array literal whose element sequence
/// was never assigned, which the grammar allows in a finished tree.
fn atom() -> Expression {
    Expression::ArrayExpression(Box::new(ArrayExpression::new()))
}

#[test]
fn empty_program_has_empty_body() {
    let p = Program::new();
    assert_eq!(p.body.len(), 0);
    assert!(p.is_complete());
}

#[test]
fn for_in_statement_defaults() {
    let f = ForInStatement::new();
    assert!(f.each);
    assert!(f.left.is_none());
    assert!(f.right.is_none());
    assert!(f.body.is_none());
}

#[test]
fn constructors_leave_every_optional_field_absent() {
    let b = BlockStatement::new();
    assert!(b.body.is_none());
    let e = ExpressionStatement::new();
    assert!(e.expression.is_none());
    let i = IfStatement::new();
    assert!(i.test.is_none() && i.consequent.is_none() && i.alternate.is_none());
    let r = ReturnStatement::new();
    assert!(r.argument.is_none());
    let w = WhileStatement::new();
    assert!(w.test.is_none() && w.body.is_none());
    let a = ArrayExpression::new();
    assert!(a.elements.is_none());
    let asg = AssignmentExpression::new();
    assert!(asg.operator.is_none() && asg.left.is_none() && asg.right.is_none());
    let l = LogicalExpression::new();
    assert!(l.operator.is_none() && l.left.is_none() && l.right.is_none());
    let c = CallExpression::new();
    assert!(c.callee.is_none() && c.arguments.is_none());
    let bi = BinaryExpression::new();
    assert!(bi.operator.is_none() && bi.left.is_none() && bi.right.is_none());
}

#[test]
fn statement_kind_matches_variant() {
    assert_eq!(Statement::EmptyStatement(EmptyStatement::new()).kind(), Kind::EmptyStatement);
    assert_eq!(Statement::BlockStatement(BlockStatement::new()).kind(), Kind::BlockStatement);
    assert_eq!(
        Statement::ExpressionStatement(ExpressionStatement::new()).kind(),
        Kind::ExpressionStatement
    );
    assert_eq!(Statement::IfStatement(IfStatement::new()).kind(), Kind::IfStatement);
    assert_eq!(Statement::ReturnStatement(ReturnStatement::new()).kind(), Kind::ReturnStatement);
    assert_eq!(Statement::WhileStatement(WhileStatement::new()).kind(), Kind::WhileStatement);
    assert_eq!(Statement::ForInStatement(ForInStatement::new()).kind(), Kind::ForInStatement);
}

#[test]
fn expression_kind_matches_variant() {
    assert_eq!(
        Expression::ArrayExpression(Box::new(ArrayExpression::new())).kind(),
        Kind::ArrayExpression
    );
    assert_eq!(
        Expression::AssignmentExpression(Box::new(AssignmentExpression::new())).kind(),
        Kind::AssignmentExpression
    );
    assert_eq!(
        Expression::LogicalExpression(Box::new(LogicalExpression::new())).kind(),
        Kind::LogicalExpression
    );
    assert_eq!(
        Expression::CallExpression(Box::new(CallExpression::new())).kind(),
        Kind::CallExpression
    );
    assert_eq!(
        Expression::BinaryExpression(Box::new(BinaryExpression::new())).kind(),
        Kind::BinaryExpression
    );
}

#[test]
fn entity_kind_matches_shape() {
    assert_eq!(Program::new().kind(), Kind::Program);
    assert_eq!(EmptyStatement::new().kind(), Kind::EmptyStatement);
    assert_eq!(BlockStatement::new().kind(), Kind::BlockStatement);
    assert_eq!(ExpressionStatement::new().kind(), Kind::ExpressionStatement);
    assert_eq!(IfStatement::new().kind(), Kind::IfStatement);
    assert_eq!(ReturnStatement::new().kind(), Kind::ReturnStatement);
    assert_eq!(WhileStatement::new().kind(), Kind::WhileStatement);
    assert_eq!(ForInStatement::new().kind(), Kind::ForInStatement);
    assert_eq!(ArrayExpression::new().kind(), Kind::ArrayExpression);
    assert_eq!(AssignmentExpression::new().kind(), Kind::AssignmentExpression);
    assert_eq!(LogicalExpression::new().kind(), Kind::LogicalExpression);
    assert_eq!(CallExpression::new().kind(), Kind::CallExpression);
    assert_eq!(BinaryExpression::new().kind(), Kind::BinaryExpression);
    assert_eq!(AssignmentOperator::new(EnumAssignmentOperators::Assign).kind(),
        Kind::AssignmentOperator);
    assert_eq!(LogicalOperator::new(EnumLogicalOperators::LogicalAnd).kind(),
        Kind::LogicalOperator);
    assert_eq!(UnaryOperator::new(EnumUnaryOperators::Not).kind(), Kind::UnaryOperator);
    assert_eq!(BinaryOperator::new(EnumBinaryOperators::Add).kind(), Kind::BinaryOperator);
}

#[test]
fn operator_constructors_store_the_value() {
    let a = AssignmentOperator::new(EnumAssignmentOperators::PlusAssign);
    assert_eq!(a.value, EnumAssignmentOperators::PlusAssign);
    let l = LogicalOperator::new(EnumLogicalOperators::LogicalOr);
    assert_eq!(l.value, EnumLogicalOperators::LogicalOr);
    let u = UnaryOperator::new(EnumUnaryOperators::Typeof);
    assert_eq!(u.value, EnumUnaryOperators::Typeof);
    let b = BinaryOperator::new(EnumBinaryOperators::LessEqual);
    assert_eq!(b.value, EnumBinaryOperators::LessEqual);
}

#[test]
fn assignment_operator_symbols_are_total_and_exact() {
    let cases = [
        (EnumAssignmentOperators::Assign, "="),
        (EnumAssignmentOperators::PlusAssign, "+="),
        (EnumAssignmentOperators::MinusAssign, "-="),
        (EnumAssignmentOperators::TimesAssign, "*="),
        (EnumAssignmentOperators::DivAssign, "/="),
        (EnumAssignmentOperators::ModAssign, "%="),
        (EnumAssignmentOperators::LShiftAssign, "<<="),
        (EnumAssignmentOperators::RShiftAssign, ">>="),
        (EnumAssignmentOperators::OrAssign, "|="),
        (EnumAssignmentOperators::XorAssign, "^="),
        (EnumAssignmentOperators::AndAssign, "&="),
    ];
    for (op, expected) in cases {
        assert_eq!(op.symbol(), expected);
    }
}

#[test]
fn logical_operator_symbols_are_total_and_exact() {
    assert_eq!(EnumLogicalOperators::LogicalAnd.symbol(), "&&");
    assert_eq!(EnumLogicalOperators::LogicalOr.symbol(), "||");
}

#[test]
fn unary_operator_symbols_are_total_and_exact() {
    assert_eq!(EnumUnaryOperators::Not.symbol(), "!");
    assert_eq!(EnumUnaryOperators::Xor.symbol(), "^");
    assert_eq!(EnumUnaryOperators::Typeof.symbol(), "typeof");
}

#[test]
fn binary_operator_symbols_are_total_and_exact() {
    let cases = [
        (EnumBinaryOperators::Add, "+"),
        (EnumBinaryOperators::Minus, "-"),
        (EnumBinaryOperators::Times, "*"),
        (EnumBinaryOperators::Div, "/"),
        (EnumBinaryOperators::Mod, "%"),
        (EnumBinaryOperators::BitwiseAnd, "&"),
        (EnumBinaryOperators::BitwiseOr, "|"),
        (EnumBinaryOperators::BitwiseXor, "^"),
        (EnumBinaryOperators::Equal, "=="),
        (EnumBinaryOperators::NotEqual, "!="),
        (EnumBinaryOperators::Greater, ">"),
        (EnumBinaryOperators::GreaterEqual, ">="),
        (EnumBinaryOperators::Less, "<"),
        (EnumBinaryOperators::LessEqual, "<="),
        (EnumBinaryOperators::BitwiseLShift, "<<"),
        (EnumBinaryOperators::BitwiseRShift, ">>"),
    ];
    for (op, expected) in cases {
        assert_eq!(op.symbol(), expected);
    }
}

#[test]
fn operator_symbols_are_pairwise_distinct() {
    let assignment = [
        EnumAssignmentOperators::Assign,
        EnumAssignmentOperators::PlusAssign,
        EnumAssignmentOperators::MinusAssign,
        EnumAssignmentOperators::TimesAssign,
        EnumAssignmentOperators::DivAssign,
        EnumAssignmentOperators::ModAssign,
        EnumAssignmentOperators::LShiftAssign,
        EnumAssignmentOperators::RShiftAssign,
        EnumAssignmentOperators::OrAssign,
        EnumAssignmentOperators::XorAssign,
        EnumAssignmentOperators::AndAssign,
    ];
    let symbols: Vec<&str> = assignment.iter().map(|o| o.symbol()).collect();
    for (i, a) in symbols.iter().enumerate() {
        for (j, b) in symbols.iter().enumerate() {
            assert_eq!(i == j, a == b);
        }
    }
    let binary = [
        EnumBinaryOperators::Add,
        EnumBinaryOperators::Minus,
        EnumBinaryOperators::Times,
        EnumBinaryOperators::Div,
        EnumBinaryOperators::Mod,
        EnumBinaryOperators::BitwiseAnd,
        EnumBinaryOperators::BitwiseOr,
        EnumBinaryOperators::BitwiseXor,
        EnumBinaryOperators::Equal,
        EnumBinaryOperators::NotEqual,
        EnumBinaryOperators::Greater,
        EnumBinaryOperators::GreaterEqual,
        EnumBinaryOperators::Less,
        EnumBinaryOperators::LessEqual,
        EnumBinaryOperators::BitwiseLShift,
        EnumBinaryOperators::BitwiseRShift,
    ];
    let symbols: Vec<&str> = binary.iter().map(|o| o.symbol()).collect();
    for (i, a) in symbols.iter().enumerate() {
        for (j, b) in symbols.iter().enumerate() {
            assert_eq!(i == j, a == b);
        }
    }
    assert_ne!(EnumLogicalOperators::LogicalAnd.symbol(), EnumLogicalOperators::LogicalOr.symbol());
    assert_ne!(EnumUnaryOperators::Not.symbol(), EnumUnaryOperators::Xor.symbol());
    assert_ne!(EnumUnaryOperators::Xor.symbol(), EnumUnaryOperators::Typeof.symbol());
    assert_ne!(EnumUnaryOperators::Not.symbol(), EnumUnaryOperators::Typeof.symbol());
}

#[test]
fn if_without_else_is_a_finished_tree() {
    let mut i = IfStatement::new();
    i.test = Some(Box::new(atom()));
    i.consequent = Some(Box::new(Statement::EmptyStatement(EmptyStatement::new())));
    let s = Statement::IfStatement(i);
    assert!(s.is_complete());
}

#[test]
fn if_missing_test_is_not_finished() {
    let mut i = IfStatement::new();
    i.consequent = Some(Box::new(Statement::EmptyStatement(EmptyStatement::new())));
    let s = Statement::IfStatement(i);
    assert!(!s.is_complete());
}

#[test]
fn call_arguments_keep_the_absent_middle_slot() {
    let mut c = CallExpression::new();
    c.callee = Some(Box::new(atom()));
    c.arguments = Some(vec![Some(Box::new(atom())), None, Some(Box::new(atom()))]);
    let args = c.arguments.as_ref().unwrap();
    assert_eq!(args.len(), 3);
    assert!(args[0].is_some());
    assert!(args[1].is_none());
    assert!(args[2].is_some());
    let e = Expression::CallExpression(Box::new(c));
    assert!(e.is_complete());
}

#[test]
fn absent_arguments_differ_from_empty_arguments() {
    let no_parens = CallExpression::new();
    let mut empty_parens = CallExpression::new();
    empty_parens.arguments = Some(vec![]);
    assert!(no_parens.arguments.is_none());
    assert!(empty_parens.arguments.as_ref().is_some_and(|a| a.is_empty()));
}

#[test]
fn unassigned_block_body_is_not_finished() {
    let b = BlockStatement::new();
    assert!(!b.is_complete());
    let mut filled = BlockStatement::new();
    filled.body = Some(vec![]);
    assert!(filled.is_complete());
}

#[test]
fn bare_return_is_finished() {
    let r = ReturnStatement::new();
    assert!(Statement::ReturnStatement(r).is_complete());
}

#[test]
fn assignment_missing_operator_is_not_finished() {
    let mut a = AssignmentExpression::new();
    a.left = Some(atom());
    a.right = Some(atom());
    let e = Expression::AssignmentExpression(Box::new(a));
    assert!(!e.is_complete());
}

#[test]
fn nested_complete_tree_is_recognized() {
    let mut inner = BinaryExpression::new();
    inner.operator = Some(BinaryOperator::new(EnumBinaryOperators::Add));
    inner.left = Some(atom());
    inner.right = Some(atom());
    let mut w = WhileStatement::new();
    let mut l = LogicalExpression::new();
    l.operator = Some(LogicalOperator::new(EnumLogicalOperators::LogicalAnd));
    l.left = Some(Expression::BinaryExpression(Box::new(inner)));
    l.right = Some(atom());
    w.test = Some(Expression::LogicalExpression(Box::new(l)));
    let mut body = BlockStatement::new();
    body.body = Some(vec![Box::new(Statement::EmptyStatement(EmptyStatement::new()))]);
    w.body = Some(body);
    let mut p = Program::new();
    p.body.push(Box::new(Statement::WhileStatement(w)));
    assert!(p.is_complete());
}

#[test]
fn incompleteness_is_found_deep_in_the_tree() {
    let mut w = WhileStatement::new();
    w.test = Some(atom());
    let mut body = BlockStatement::new();
    // the inner expression statement never got its expression
    body.body = Some(vec![Box::new(Statement::ExpressionStatement(ExpressionStatement::new()))]);
    w.body = Some(body);
    let mut p = Program::new();
    p.body.push(Box::new(Statement::WhileStatement(w)));
    assert!(!p.is_complete());
}
