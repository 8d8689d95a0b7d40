//! The meaning of the parser: spec functions that say, for each grammar
//! rule, which tree a token stream yields and where the parser stands
//! afterwards. The token stream is the one `lex` gives.

use vstd::prelude::*;
use crate::lexer::{TokenView, lex};
use crate::models::{AstNode, NodeType, opt_text, prefix_standard};

verus! {

/// Where the parser stands: the current token, the lookahead token, the
/// tokenizer's position after the lookahead, and where the current token ends.
pub struct Cursor {
    pub cur: TokenView,
    pub peek: TokenView,
    pub pos: int,
    pub cur_end: int,
}

/// A syntax tree as plain values; a context is given by its prefix.
pub struct NodeSpec {
    pub node_type: NodeType,
    pub content: Seq<char>,
    pub raw_body: Option<Seq<char>>,
    pub prefixes: Seq<Seq<char>>,
    pub children: Seq<NodeSpec>,
}

/// A node with no body text, contexts or children.
pub open spec fn leaf(node_type: NodeType, content: Seq<char>) -> NodeSpec {
    NodeSpec { node_type, content, raw_body: None, prefixes: Seq::empty(), children: Seq::empty() }
}

/// `n` is the tree `s`.
pub open spec fn node_matches(n: AstNode, s: NodeSpec) -> bool
    decreases n,
{
    &&& n.node_type == s.node_type
    &&& n.content@ == s.content
    &&& opt_text(n.raw_body) == s.raw_body
    &&& n.compliance_context@.len() == s.prefixes.len()
    &&& forall|i: int|
        0 <= i < s.prefixes.len() ==> (#[trigger] n.compliance_context@[i]).prefix@ == s.prefixes[i]
    &&& n.children@.len() == s.children.len()
    &&& forall|i: int|
        0 <= i < s.children.len() ==> node_matches(#[trigger] n.children@[i], s.children[i])
}

/// The nodes `v` are the trees `s`, one for one.
pub open spec fn nodes_match(v: Seq<AstNode>, s: Seq<NodeSpec>) -> bool {
    &&& v.len() == s.len()
    &&& forall|i: int| 0 <= i < s.len() ==> node_matches(#[trigger] v[i], s[i])
}

/// The statement result `r` is the result `s`.
pub open spec fn result_matches(r: Result<AstNode, String>, s: Result<NodeSpec, Seq<char>>) -> bool {
    match (r, s) {
        (Ok(n), Ok(t)) => node_matches(n, t),
        (Err(m), Err(t)) => m@ == t,
        _ => false,
    }
}

/// One step: the lookahead becomes current and the next token is read.
pub open spec fn advance(cs: Seq<char>, c: Cursor) -> Cursor {
    Cursor { cur: c.peek, peek: lex(cs, c.pos).0, pos: lex(cs, c.pos).1, cur_end: c.pos }
}

/// Twice the unread characters, and one for each of the current and
/// lookahead tokens that is not `Eof`.
pub open spec fn cursor_measure(cs: Seq<char>, c: Cursor) -> nat {
    let rest: int = if 0 <= c.pos <= cs.len() {
        cs.len() - c.pos
    } else {
        0
    };
    (2 * rest + (if c.cur is Eof {
        0int
    } else {
        1int
    }) + (if c.peek is Eof {
        0int
    } else {
        1int
    })) as nat
}

/// The step is taken only where it makes progress.
pub open spec fn steps(cs: Seq<char>, c: Cursor) -> bool {
    cursor_measure(cs, advance(cs, c)) < cursor_measure(cs, c)
}

/// Past any newline tokens.
pub open spec fn skip_newlines(cs: Seq<char>, c: Cursor) -> Cursor
    decreases cursor_measure(cs, c),
{
    if c.cur is Newline && steps(cs, c) {
        skip_newlines(cs, advance(cs, c))
    } else {
        c
    }
}

/// At the next `)` or at the end of input.
pub open spec fn skip_to_right_paren(cs: Seq<char>, c: Cursor) -> Cursor
    decreases cursor_measure(cs, c),
{
    if c.cur is RightParen || c.cur is Eof || !steps(cs, c) {
        c
    } else {
        skip_to_right_paren(cs, advance(cs, c))
    }
}

/// Past the next `)`, or at the end of input.
pub open spec fn skip_past_right_paren(cs: Seq<char>, c: Cursor) -> Cursor {
    let d = skip_to_right_paren(cs, c);
    if d.cur is RightParen {
        advance(cs, d)
    } else {
        d
    }
}

/// At the next `;`, newline or end of input.
pub open spec fn skip_to_end(cs: Seq<char>, c: Cursor) -> Cursor
    decreases cursor_measure(cs, c),
{
    if c.cur is Semicolon || c.cur is Newline || c.cur is Eof || !steps(cs, c) {
        c
    } else {
        skip_to_end(cs, advance(cs, c))
    }
}

/// Past the end of a statement: past a `;`, or at a newline or the end of input.
pub open spec fn skip_statement_end(cs: Seq<char>, c: Cursor) -> Cursor {
    let d = skip_to_end(cs, c);
    if d.cur is Semicolon {
        advance(cs, d)
    } else {
        d
    }
}

/// The calls in an `if` condition, appended to `acc` in source order, up to
/// the `)` that closes the condition. Parentheses nest, and a call inside
/// another call's arguments is recorded too; every call is a leaf.
pub open spec fn condition_calls(cs: Seq<char>, c: Cursor, acc: Seq<NodeSpec>) -> (
    Seq<NodeSpec>,
    Cursor,
)
    decreases cursor_measure(cs, c),
{
    if c.cur is RightParen || c.cur is Eof || !steps(cs, c) {
        (acc, c)
    } else if c.cur is Identifier && c.peek is LeftParen {
        condition_calls(
            cs,
            advance(cs, c),
            acc.push(leaf(NodeType::CallExpression, c.cur->Identifier_0)),
        )
    } else if c.cur is LeftParen {
        let (inner, d) = condition_calls(cs, advance(cs, c), acc);
        let e = if d.cur is RightParen {
            advance(cs, d)
        } else {
            d
        };
        if cursor_measure(cs, e) < cursor_measure(cs, c) {
            condition_calls(cs, e, inner)
        } else {
            (inner, e)
        }
    } else {
        condition_calls(cs, advance(cs, c), acc)
    }
}

/// A call `name(...)`, an assignment `name = ...`, or another expression.
/// A call is a leaf; its arguments are skipped up to the first `)`.
pub open spec fn expression_statement(cs: Seq<char>, c: Cursor) -> (NodeSpec, Cursor) {
    match c.cur {
        TokenView::Identifier(name) => if c.peek is LeftParen {
            let d = skip_past_right_paren(cs, advance(cs, advance(cs, c)));
            (
                leaf(NodeType::CallExpression, name),
                if d.cur is Semicolon {
                    advance(cs, d)
                } else {
                    d
                },
            )
        } else if c.peek is Equals {
            (
                leaf(NodeType::AssignmentExpression, name),
                skip_statement_end(cs, advance(cs, advance(cs, c))),
            )
        } else {
            (leaf(NodeType::Expression, "expression"@), skip_statement_end(cs, c))
        },
        _ => (leaf(NodeType::Expression, "expression"@), skip_statement_end(cs, c)),
    }
}

/// `let name ...`.
pub open spec fn variable_declaration(cs: Seq<char>, c: Cursor) -> (
    Result<NodeSpec, Seq<char>>,
    Cursor,
) {
    let d = advance(cs, c);
    match d.cur {
        TokenView::Identifier(name) => (
            Ok(leaf(NodeType::Variable, name)),
            skip_statement_end(cs, advance(cs, d)),
        ),
        _ => (Err("Expected variable name"@), d),
    }
}

/// `return <expression>`.
pub open spec fn return_statement(cs: Seq<char>, c: Cursor) -> (
    Result<NodeSpec, Seq<char>>,
    Cursor,
) {
    let (e, d) = expression_statement(cs, advance(cs, c));
    (
        Ok(
            NodeSpec {
                children: seq![e],
                ..leaf(NodeType::ReturnStatement, "return"@)
            },
        ),
        if d.cur is Semicolon {
            advance(cs, d)
        } else {
            d
        },
    )
}

/// The name of a token's kind.
pub open spec fn kind_name(t: TokenView) -> Seq<char> {
    match t {
        TokenView::CompliancePrefix(_) => "CompliancePrefix"@,
        TokenView::Identifier(_) => "Identifier"@,
        TokenView::String(_) => "String"@,
        TokenView::Number(_) => "Number"@,
        TokenView::LeftParen => "LeftParen"@,
        TokenView::RightParen => "RightParen"@,
        TokenView::LeftBrace => "LeftBrace"@,
        TokenView::RightBrace => "RightBrace"@,
        TokenView::Semicolon => "Semicolon"@,
        TokenView::Comma => "Comma"@,
        TokenView::Dot => "Dot"@,
        TokenView::Colon => "Colon"@,
        TokenView::Equals => "Equals"@,
        TokenView::Function => "Function"@,
        TokenView::Let => "Let"@,
        TokenView::If => "If"@,
        TokenView::Else => "Else"@,
        TokenView::Return => "Return"@,
        TokenView::Newline => "Newline"@,
        TokenView::Eof => "Eof"@,
        TokenView::Invalid(_) => "Invalid"@,
    }
}

/// One statement: a tree, or the message of a statement that failed.
pub open spec fn statement(cs: Seq<char>, c: Cursor) -> (Result<NodeSpec, Seq<char>>, Cursor)
    decreases cursor_measure(cs, c), 1int,
{
    match c.cur {
        TokenView::CompliancePrefix(p) => compliance_statement(cs, c, p),
        TokenView::Function => function(cs, c),
        TokenView::Let => variable_declaration(cs, c),
        TokenView::If => if_statement(cs, c),
        TokenView::Return => return_statement(cs, c),
        TokenView::Identifier(_) => (Ok(expression_statement(cs, c).0), expression_statement(
            cs,
            c,
        ).1),
        _ => (Err("Unexpected token: "@ + kind_name(c.cur)), advance(cs, c)),
    }
}

/// The statement after a prefix, with the prefix's context attached.
pub open spec fn compliance_statement(cs: Seq<char>, c: Cursor, p: Seq<char>) -> (
    Result<NodeSpec, Seq<char>>,
    Cursor,
)
    decreases cursor_measure(cs, c), 0int,
{
    let d = skip_newlines(cs, advance(cs, c));
    if cursor_measure(cs, d) < cursor_measure(cs, c) {
        let (r, e) = statement(cs, d);
        match r {
            Ok(n) => (
                Ok(
                    if prefix_standard(p) is Some {
                        NodeSpec { prefixes: n.prefixes.push(p), ..n }
                    } else {
                        n
                    },
                ),
                e,
            ),
            Err(m) => (
                Err(
                    "Expected a statement after compliance prefix '"@ + p
                        + "', but found error: "@ + m,
                ),
                e,
            ),
        }
    } else {
        (Err(Seq::empty()), d)
    }
}

/// The statements of a block, appended to `acc`, up to the `}`; a failed
/// statement is skipped together with the token after it.
pub open spec fn block_statements(cs: Seq<char>, c: Cursor, acc: Seq<NodeSpec>) -> (
    Seq<NodeSpec>,
    Cursor,
)
    decreases cursor_measure(cs, c), 2int,
{
    let d = skip_newlines(cs, c);
    if d.cur is RightBrace || d.cur is Eof || cursor_measure(cs, d) > cursor_measure(cs, c) {
        (acc, d)
    } else {
        let (r, e) = statement(cs, d);
        let (acc2, e2) = match r {
            Ok(n) => (acc.push(n), e),
            Err(_) => (acc, advance(cs, e)),
        };
        if cursor_measure(cs, e2) < cursor_measure(cs, c) {
            block_statements(cs, e2, acc2)
        } else {
            (acc2, e2)
        }
    }
}

/// A block node of the statements up to the `}`, and the cursor at the `}`.
pub open spec fn block(cs: Seq<char>, c: Cursor, name: Seq<char>) -> (NodeSpec, Cursor)
    decreases cursor_measure(cs, c), 3int,
{
    let (items, d) = block_statements(cs, c, Seq::empty());
    (NodeSpec { children: items, ..leaf(NodeType::Block, name) }, d)
}

/// The text between the end of `{` and the start of the closing `}`, if any.
pub open spec fn body_text(cs: Seq<char>, start: int, at_close: Cursor) -> Option<Seq<char>> {
    let end = if at_close.cur is RightBrace && at_close.cur_end > 0 {
        at_close.cur_end - 1
    } else {
        at_close.cur_end
    };
    if start < end {
        Some(cs.subrange(start, end))
    } else {
        None
    }
}

/// `function name(...) { ... }`.
pub open spec fn function(cs: Seq<char>, c: Cursor) -> (Result<NodeSpec, Seq<char>>, Cursor)
    decreases cursor_measure(cs, c), 0int,
{
    let d = advance(cs, c);
    match d.cur {
        TokenView::Identifier(name) => {
            let e = advance(cs, d);
            let f = if e.cur is LeftParen {
                skip_past_right_paren(cs, advance(cs, e))
            } else {
                e
            };
            if f.cur is LeftBrace {
                let g = advance(cs, f);
                if cursor_measure(cs, g) < cursor_measure(cs, c) {
                    let (b, h) = block(cs, g, "body"@);
                    (
                        Ok(
                            NodeSpec {
                                raw_body: body_text(cs, f.cur_end, h),
                                children: seq![b],
                                ..leaf(NodeType::Function, name)
                            },
                        ),
                        if h.cur is RightBrace {
                            advance(cs, h)
                        } else {
                            h
                        },
                    )
                } else {
                    (Err(Seq::empty()), g)
                }
            } else {
                (Ok(leaf(NodeType::Function, name)), f)
            }
        },
        _ => (Err("Expected function name"@), d),
    }
}

/// `if (...) { ... }`: the calls of the condition, then the block.
pub open spec fn if_statement(cs: Seq<char>, c: Cursor) -> (Result<NodeSpec, Seq<char>>, Cursor)
    decreases cursor_measure(cs, c), 0int,
{
    let d = advance(cs, c);
    let (calls, e) = if d.cur is LeftParen {
        let (calls, e0) = condition_calls(cs, advance(cs, d), Seq::empty());
        (
            calls,
            if e0.cur is RightParen {
                advance(cs, e0)
            } else {
                e0
            },
        )
    } else {
        (Seq::empty(), d)
    };
    let node = NodeSpec { children: calls, ..leaf(NodeType::IfStatement, "if"@) };
    if e.cur is LeftBrace {
        let g = advance(cs, e);
        if cursor_measure(cs, g) < cursor_measure(cs, c) {
            let (b, h) = block(cs, g, "then_block"@);
            (
                Ok(NodeSpec { children: calls.push(b), ..node }),
                if h.cur is RightBrace {
                    advance(cs, h)
                } else {
                    h
                },
            )
        } else {
            (Err(Seq::empty()), g)
        }
    } else {
        (Ok(node), e)
    }
}

/// The top-level statements and the messages of those that failed, each
/// appended to what came before, up to the end of input.
pub open spec fn top_level(
    cs: Seq<char>,
    c: Cursor,
    items: Seq<NodeSpec>,
    warnings: Seq<Seq<char>>,
) -> (Seq<NodeSpec>, Seq<Seq<char>>)
    decreases cursor_measure(cs, c),
{
    if c.cur is Eof {
        (items, warnings)
    } else {
        let (r, e) = statement(cs, c);
        let d = skip_newlines(cs, e);
        let (items2, warnings2) = match r {
            Ok(n) => (items.push(n), warnings),
            Err(m) => (items, warnings.push(m)),
        };
        if cursor_measure(cs, d) < cursor_measure(cs, c) {
            top_level(cs, d, items2, warnings2)
        } else {
            (items2, warnings2)
        }
    }
}

/// The tree that parsing from `c` yields, and the warnings.
pub open spec fn parse_tree(cs: Seq<char>, c: Cursor) -> (NodeSpec, Seq<Seq<char>>) {
    let (items, warnings) = top_level(cs, c, Seq::empty(), Seq::empty());
    (NodeSpec { children: items, ..leaf(NodeType::Root, "root"@) }, warnings)
}

/// The cursor at the start of `cs`.
pub open spec fn start_cursor(cs: Seq<char>) -> Cursor {
    let (t0, p0) = lex(cs, 0);
    let (t1, p1) = lex(cs, p0);
    Cursor { cur: t0, peek: t1, pos: p1, cur_end: p0 }
}

} // verus!
