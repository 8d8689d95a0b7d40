//! The recursive-descent parser for the annotation syntax. A compliance
//! prefix is attached to the statement that follows it; a statement that
//! cannot be parsed becomes a warning and parsing resumes.

use std::collections::HashMap;
use vstd::prelude::*;
use crate::clock::utc_now_rfc3339;
use crate::grammar::{
    Cursor, NodeSpec, advance, block, compliance_statement, condition_calls, cursor_measure,
    nodes_match,
    expression_statement, function, if_statement, kind_name, leaf, node_matches, parse_tree,
    result_matches, return_statement, skip_newlines, skip_past_right_paren, skip_statement_end,
    skip_to_end, skip_to_right_paren, start_cursor, statement, top_level, variable_declaration,
    block_statements,
};
use crate::lexer::{Lexer, Token, lemma_lex_progress};
use crate::models::{AstNode, ComplianceContext, NodeType, ParseResult, prefix_standard};
use crate::text::{join2, texts};

verus! {

/// Node types that the parser never gives children.
pub open spec fn is_leaf_type(t: NodeType) -> bool {
    t == NodeType::CallExpression || t == NodeType::AssignmentExpression || t == NodeType::Variable
        || t == NodeType::Expression
}

/// The shape of every statement subtree that the parser builds: each
/// context came from resolving its prefix and sits on the statement it
/// annotates (there are no comment or root nodes), only a function carries
/// body text, and calls, assignments, variables and other expressions are
/// leaves.
pub open spec fn parsed_shape(node: AstNode) -> bool
    decreases node,
{
    &&& forall|i: int|
        0 <= i < node.compliance_context@.len() ==> {
            let c = #[trigger] node.compliance_context@[i];
            &&& prefix_standard(c.prefix@) is Some
            &&& c.standard.key() == prefix_standard(c.prefix@)->0.key()
        }
    &&& node.node_type != NodeType::ComplianceComment
    &&& node.node_type != NodeType::Root
    &&& node.raw_body is Some ==> node.node_type == NodeType::Function
    &&& is_leaf_type(node.node_type) ==> node.children@.len() == 0
    &&& forall|i: int| 0 <= i < node.children@.len() ==> parsed_shape(#[trigger] node.children@[i])
}

/// Every child of `node` has the parsed shape.
pub open spec fn children_parsed(node: AstNode) -> bool {
    forall|i: int| 0 <= i < node.children@.len() ==> parsed_shape(#[trigger] node.children@[i])
}

/// Appending a child of the parsed shape keeps every child of that shape.
proof fn lemma_add_child_parsed(before: AstNode, after: AstNode, child: AstNode)
    requires
        children_parsed(before),
        parsed_shape(child),
        after.children@ == before.children@.push(child),
    ensures
        children_parsed(after),
{
    assert forall|i: int| 0 <= i < after.children@.len() implies parsed_shape(
        #[trigger] after.children@[i],
    ) by {
        if i < before.children@.len() {
            assert(after.children@[i] == before.children@[i]);
        }
    }
}

/// A node of a non-leaf statement type whose children have the parsed
/// shape, with resolved contexts, has the parsed shape.
proof fn lemma_parsed_from_children(node: AstNode)
    requires
        children_parsed(node),
        forall|i: int|
            0 <= i < node.compliance_context@.len() ==> {
                let c = #[trigger] node.compliance_context@[i];
                &&& prefix_standard(c.prefix@) is Some
                &&& c.standard.key() == prefix_standard(c.prefix@)->0.key()
            },
        node.node_type != NodeType::ComplianceComment,
        node.node_type != NodeType::Root,
        node.raw_body is Some ==> node.node_type == NodeType::Function,
        is_leaf_type(node.node_type) ==> node.children@.len() == 0,
    ensures
        parsed_shape(node),
{
}

/// Appending a child that is the tree `sc` to a node that is the tree `s`
/// gives the tree `s` with `sc` appended.
proof fn lemma_push_child_matches(
    before: AstNode,
    after: AstNode,
    child: AstNode,
    s: NodeSpec,
    sc: NodeSpec,
)
    requires
        node_matches(before, s),
        node_matches(child, sc),
        after.children@ == before.children@.push(child),
        after.node_type == before.node_type,
        after.content == before.content,
        after.raw_body == before.raw_body,
        after.compliance_context == before.compliance_context,
    ensures
        node_matches(after, NodeSpec { children: s.children.push(sc), ..s }),
{
    let t = NodeSpec { children: s.children.push(sc), ..s };
    assert forall|i: int| 0 <= i < t.children.len() implies node_matches(
        #[trigger] after.children@[i],
        t.children[i],
    ) by {
        if i < s.children.len() {
            assert(after.children@[i] == before.children@[i]);
        }
    }
}

/// Attaching a context with prefix `p` to a node that is the tree `s`
/// gives the tree `s` with `p` appended to its prefixes.
proof fn lemma_push_context_matches(
    before: AstNode,
    after: AstNode,
    ctx: ComplianceContext,
    s: NodeSpec,
)
    requires
        node_matches(before, s),
        after.compliance_context@ == before.compliance_context@.push(ctx),
        after.node_type == before.node_type,
        after.content == before.content,
        after.raw_body == before.raw_body,
        after.children == before.children,
    ensures
        node_matches(after, NodeSpec { prefixes: s.prefixes.push(ctx.prefix@), ..s }),
{
    let t = NodeSpec { prefixes: s.prefixes.push(ctx.prefix@), ..s };
    assert forall|i: int| 0 <= i < t.prefixes.len() implies (
    #[trigger] after.compliance_context@[i]).prefix@ == t.prefixes[i] by {
        if i < s.prefixes.len() {
            assert(after.compliance_context@[i] == before.compliance_context@[i]);
        }
    }
    assert forall|i: int| 0 <= i < t.children.len() implies node_matches(
        #[trigger] after.children@[i],
        t.children[i],
    ) by {
        assert(after.children@[i] == before.children@[i]);
    }
}

/// A parser over one input text, one token of lookahead ahead of the
/// current token.
#[derive(Debug)]
pub struct Parser {
    lexer: Lexer,
    current_token: Token,
    peek_token: Token,
    current_end: usize,
    peek_end: usize,
}

impl Parser {
    /// The tokenizer sits right after the lookahead token, and token ends
    /// do not go backwards.
    pub closed spec fn wf(&self) -> bool {
        &&& self.lexer.wf()
        &&& self.current_end <= self.peek_end
        &&& self.peek_end == self.lexer.pos()
    }

    /// The characters of the input.
    pub closed spec fn text(&self) -> Seq<char> {
        self.lexer.text()
    }

    /// Where the parser stands.
    pub closed spec fn view(&self) -> Cursor {
        Cursor {
            cur: self.current_token@,
            peek: self.peek_token@,
            pos: self.lexer.pos(),
            cur_end: self.current_end as int,
        }
    }

    /// The measure that every step past a token other than `Eof` lowers.
    pub open spec fn measure(&self) -> nat {
        cursor_measure(self.text(), self.view())
    }

    /// A parser at the start of `input`.
    pub fn new(input: String) -> (r: Parser)
        ensures
            r.wf(),
            r.text() == input@,
            r.view() == start_cursor(input@),
    {
        let mut lexer = Lexer::new(input);
        proof {
            lemma_lex_progress(lexer.text(), lexer.pos());
        }
        let current_token = lexer.next_token();
        let current_end = lexer.position();
        proof {
            lemma_lex_progress(lexer.text(), lexer.pos());
        }
        let peek_token = lexer.next_token();
        let peek_end = lexer.position();
        Parser { lexer, current_token, peek_token, current_end, peek_end }
    }

    /// Moves to the next token.
    fn next_token(&mut self)
        requires
            old(self).wf(),
        ensures
            final(self).wf(),
            final(self).text() == old(self).text(),
            final(self).view() == advance(old(self).text(), old(self).view()),
            final(self).measure() <= old(self).measure(),
            !(old(self).view().cur is Eof) ==> final(self).measure() < old(self).measure(),
    {
        proof {
            lemma_lex_progress(self.lexer.text(), self.lexer.pos());
        }
        let mut next = self.lexer.next_token();
        let end = self.lexer.position();
        core::mem::swap(&mut self.peek_token, &mut next);
        self.current_token = next;
        self.current_end = self.peek_end;
        self.peek_end = end;
    }

    /// Skips newline tokens.
    fn skip_newlines(&mut self)
        requires
            old(self).wf(),
        ensures
            final(self).wf(),
            final(self).text() == old(self).text(),
            final(self).view() == skip_newlines(old(self).text(), old(self).view()),
            final(self).measure() <= old(self).measure(),
    {
        let ghost cs = self.text();
        let ghost c0 = self.view();
        while matches!(self.current_token, Token::Newline)
            invariant
                self.wf(),
                self.text() == cs,
                cs == old(self).text(),
                c0 == old(self).view(),
                skip_newlines(cs, self.view()) == skip_newlines(cs, c0),
                self.measure() <= cursor_measure(cs, c0),
            decreases self.measure(),
        {
            self.next_token();
        }
    }

    /// Parses the whole input: one child of the root per statement, and a
    /// warning per statement that could not be parsed.
    pub fn parse(&mut self) -> (r: ParseResult)
        requires
            old(self).wf(),
        ensures
            final(self).wf(),
            final(self).view().cur is Eof,
            node_matches(r.ast, parse_tree(old(self).text(), old(self).view()).0),
            texts(r.warnings@) == parse_tree(old(self).text(), old(self).view()).1,
            r.ast.compliance_context@.len() == 0,
            children_parsed(r.ast),
            r.compliance_violations@.len() == 0,
    {
        let ghost cs = self.text();
        let ghost c0 = self.view();
        let mut ast = AstNode::new(NodeType::Root, String::from_str("root"));
        let mut warnings: Vec<String> = Vec::new();
        let ghost mut items: Seq<NodeSpec> = Seq::empty();
        assert(texts(warnings@) =~= Seq::<Seq<char>>::empty());
        while !matches!(self.current_token, Token::Eof)
            invariant
                self.wf(),
                self.text() == cs,
                cs == old(self).text(),
                c0 == old(self).view(),
                top_level(cs, self.view(), items, texts(warnings@)) == top_level(
                    cs,
                    c0,
                    Seq::empty(),
                    Seq::empty(),
                ),
                node_matches(ast, NodeSpec { children: items, ..leaf(NodeType::Root, "root"@) }),
                ast.node_type == NodeType::Root,
                ast.compliance_context@.len() == 0,
                ast.raw_body is None,
                children_parsed(ast),
            decreases self.measure(),
        {
            let ghost c = self.view();
            let ghost w = texts(warnings@);
            match self.parse_statement() {
                Ok(stmt) => {
                    let ghost before = ast;
                    ast.add_child(stmt);
                    proof {
                        lemma_add_child_parsed(before, ast, stmt);
                        lemma_push_child_matches(
                            before,
                            ast,
                            stmt,
                            NodeSpec { children: items, ..leaf(NodeType::Root, "root"@) },
                            statement(cs, c).0->Ok_0,
                        );
                        items = items.push(statement(cs, c).0->Ok_0);
                    }
                },
                Err(error) => {
                    warnings.push(error);
                    assert(texts(warnings@) =~= w.push(statement(cs, c).0->Err_0));
                },
            }
            self.skip_newlines();
        }
        let mut metadata: HashMap<String, String> = HashMap::new();
        metadata.insert(String::from_str("parser_version"), String::from_str("0.1.0"));
        metadata.insert(String::from_str("parsed_at"), utc_now_rfc3339());
        ParseResult { ast, compliance_violations: Vec::new(), warnings, metadata }
    }

    /// Parses one statement; an unexpected token is skipped and reported.
    #[verifier::rlimit(100)]
    fn parse_statement(&mut self) -> (r: Result<AstNode, String>)
        requires
            old(self).wf(),
        ensures
            final(self).wf(),
            final(self).text() == old(self).text(),
            result_matches(r, statement(old(self).text(), old(self).view()).0),
            final(self).view() == statement(old(self).text(), old(self).view()).1,
            final(self).measure() <= old(self).measure(),
            !(old(self).view().cur is Eof) ==> final(self).measure() < old(self).measure(),
            r is Ok ==> parsed_shape(r->Ok_0),
        decreases old(self).measure(), 1int,
    {
        match &self.current_token {
            Token::CompliancePrefix(prefix) => {
                let prefix = prefix.clone();
                self.parse_compliance_statement(prefix)
            },
            Token::Function => self.parse_function(),
            Token::Let => self.parse_variable_declaration(),
            Token::If => self.parse_if_statement(),
            Token::Return => self.parse_return_statement(),
            Token::Identifier(_) => self.parse_expression_statement(),
            _ => {
                let error = join2("Unexpected token: ", self.current_token.kind_name());
                self.next_token();
                Err(error)
            },
        }
    }

    /// Parses the statement after a compliance prefix and attaches the
    /// prefix's context to it.
    fn parse_compliance_statement(&mut self, prefix: String) -> (r: Result<AstNode, String>)
        requires
            old(self).wf(),
            old(self).view().cur == crate::lexer::TokenView::CompliancePrefix(prefix@),
        ensures
            final(self).wf(),
            final(self).text() == old(self).text(),
            result_matches(
                r,
                compliance_statement(old(self).text(), old(self).view(), prefix@).0,
            ),
            final(self).view() == compliance_statement(
                old(self).text(),
                old(self).view(),
                prefix@,
            ).1,
            final(self).measure() < old(self).measure(),
            r is Ok ==> parsed_shape(r->Ok_0),
        decreases old(self).measure(), 0int,
    {
        let ghost cs = self.text();
        let ghost c = self.view();
        self.next_token();
        self.skip_newlines();
        let ghost d = self.view();
        match self.parse_statement() {
            Ok(mut node) => {
                let ghost n = statement(cs, d).0->Ok_0;
                match ComplianceContext::from_prefix(prefix.as_str()) {
                    Some(context) => {
                        let ghost before = node;
                        let ghost ctx = context;
                        node.add_compliance_context(context);
                        proof {
                            lemma_push_context_matches(before, node, ctx, n);
                            assert(children_parsed(node)) by {
                                assert forall|i: int| 0 <= i < node.children@.len() implies parsed_shape(
                                    #[trigger] node.children@[i],
                                ) by {
                                    assert(node.children@[i] == before.children@[i]);
                                }
                            }
                            assert forall|i: int| 0 <= i < node.compliance_context@.len() implies {
                                let c = #[trigger] node.compliance_context@[i];
                                &&& prefix_standard(c.prefix@) is Some
                                &&& c.standard.key() == prefix_standard(c.prefix@)->0.key()
                            } by {
                                if i < before.compliance_context@.len() {
                                    assert(node.compliance_context@[i]
                                        == before.compliance_context@[i]);
                                }
                            }
                            lemma_parsed_from_children(node);
                        }
                    },
                    None => {},
                }
                Ok(node)
            },
            Err(e) => {
                let mut message = String::from_str("Expected a statement after compliance prefix '");
                message.append(prefix.as_str());
                message.append("', but found error: ");
                message.append(e.as_str());
                Err(message)
            },
        }
    }

    /// Skips tokens up to a `)` or the end of input, then moves past the `)`.
    fn skip_past_right_paren(&mut self)
        requires
            old(self).wf(),
        ensures
            final(self).wf(),
            final(self).text() == old(self).text(),
            final(self).view() == skip_past_right_paren(old(self).text(), old(self).view()),
            final(self).measure() <= old(self).measure(),
    {
        let ghost cs = self.text();
        let ghost c0 = self.view();
        while !matches!(self.current_token, Token::RightParen) && !matches!(
            self.current_token,
            Token::Eof,
        )
            invariant
                self.wf(),
                self.text() == cs,
                cs == old(self).text(),
                c0 == old(self).view(),
                skip_to_right_paren(cs, self.view()) == skip_to_right_paren(cs, c0),
                self.measure() <= cursor_measure(cs, c0),
            decreases self.measure(),
        {
            self.next_token();
        }
        if matches!(self.current_token, Token::RightParen) {
            self.next_token();
        }
    }

    /// Skips tokens up to a `;`, a newline or the end of input, then moves
    /// past a `;`.
    fn skip_to_statement_end(&mut self)
        requires
            old(self).wf(),
        ensures
            final(self).wf(),
            final(self).text() == old(self).text(),
            final(self).view() == skip_statement_end(old(self).text(), old(self).view()),
            final(self).measure() <= old(self).measure(),
            !(old(self).view().cur is Newline) && !(old(self).view().cur is Eof)
                ==> final(self).measure() < old(self).measure(),
    {
        let ghost cs = self.text();
        let ghost c0 = self.view();
        if matches!(self.current_token, Token::Semicolon) {
            self.next_token();
            return;
        }
        if matches!(self.current_token, Token::Newline) || matches!(self.current_token, Token::Eof) {
            return;
        }
        self.next_token();
        while !matches!(self.current_token, Token::Semicolon) && !matches!(
            self.current_token,
            Token::Newline,
        ) && !matches!(self.current_token, Token::Eof)
            invariant
                self.wf(),
                self.text() == cs,
                cs == old(self).text(),
                c0 == old(self).view(),
                skip_to_end(cs, self.view()) == skip_to_end(cs, c0),
                self.measure() < cursor_measure(cs, c0),
            decreases self.measure(),
        {
            self.next_token();
        }
        if matches!(self.current_token, Token::Semicolon) {
            self.next_token();
        }
    }

    /// Parses statements up to a `}` or the end of input into a block node,
    /// leaving the `}` current; a statement that fails is skipped together
    /// with the token after it.
    fn parse_block(&mut self, name: &str) -> (r: AstNode)
        requires
            old(self).wf(),
        ensures
            final(self).wf(),
            final(self).text() == old(self).text(),
            node_matches(r, block(old(self).text(), old(self).view(), name@).0),
            final(self).view() == block(old(self).text(), old(self).view(), name@).1,
            final(self).measure() <= old(self).measure(),
            parsed_shape(r),
        decreases old(self).measure(), 2int,
    {
        let ghost cs = self.text();
        let ghost c0 = self.view();
        let mut node = AstNode::new(NodeType::Block, name.to_owned());
        let ghost mut items: Seq<NodeSpec> = Seq::empty();
        loop
            invariant
                self.wf(),
                self.text() == cs,
                cs == old(self).text(),
                c0 == old(self).view(),
                block_statements(cs, self.view(), items) == block_statements(
                    cs,
                    c0,
                    Seq::empty(),
                ),
                node_matches(node, NodeSpec { children: items, ..leaf(NodeType::Block, name@) }),
                self.measure() <= cursor_measure(cs, c0),
                node.node_type == NodeType::Block,
                node.compliance_context@.len() == 0,
                node.raw_body is None,
                children_parsed(node),
            ensures
                block_statements(cs, c0, Seq::empty()) == (items, self.view()),
            decreases self.measure(),
        {
            let ghost c = self.view();
            self.skip_newlines();
            if matches!(self.current_token, Token::RightBrace) || matches!(
                self.current_token,
                Token::Eof,
            ) {
                assert(block_statements(cs, c, items) == (items, self.view()));
                assert(block_statements(cs, self.view(), items) == (items, self.view()));
                break;
            }
            let ghost d = self.view();
            let ghost items0 = items;
            match self.parse_statement() {
                Ok(stmt) => {
                    let ghost before = node;
                    node.add_child(stmt);
                    proof {
                        lemma_add_child_parsed(before, node, stmt);
                        lemma_push_child_matches(
                            before,
                            node,
                            stmt,
                            NodeSpec { children: items, ..leaf(NodeType::Block, name@) },
                            statement(cs, d).0->Ok_0,
                        );
                        items = items.push(statement(cs, d).0->Ok_0);
                    }
                },
                Err(_) => self.next_token(),
            }
            assert(block_statements(cs, c, items0) == block_statements(cs, self.view(), items));
        }
        proof {
            lemma_parsed_from_children(node);
        }
        node
    }

    /// Parses `function name(...) { ... }`; the body's text is kept as the
    /// node's raw body.
    #[verifier::rlimit(100)]
    fn parse_function(&mut self) -> (r: Result<AstNode, String>)
        requires
            old(self).wf(),
            old(self).view().cur is Function,
        ensures
            final(self).wf(),
            final(self).text() == old(self).text(),
            result_matches(r, function(old(self).text(), old(self).view()).0),
            final(self).view() == function(old(self).text(), old(self).view()).1,
            final(self).measure() < old(self).measure(),
            r is Ok ==> parsed_shape(r->Ok_0),
        decreases old(self).measure(), 0int,
    {
        let ghost cs = self.text();
        self.next_token();
        let mut node = match &self.current_token {
            Token::Identifier(name) => AstNode::new(NodeType::Function, name.clone()),
            _ => {
                return Err(String::from_str("Expected function name"));
            },
        };
        let ghost name = node.content@;
        self.next_token();
        if matches!(self.current_token, Token::LeftParen) {
            self.next_token();
            self.skip_past_right_paren();
        }
        if matches!(self.current_token, Token::LeftBrace) {
            let ghost f = self.view();
            let body_start = self.current_end;
            self.next_token();
            let ghost g = self.view();
            let body = self.parse_block("body");
            let ghost h = self.view();
            let body_end = if matches!(self.current_token, Token::RightBrace) && self.current_end
                > 0 {
                self.current_end - 1
            } else {
                self.current_end
            };
            if body_start < body_end {
                node.raw_body = Some(self.lexer.slice(body_start, body_end));
            }
            if matches!(self.current_token, Token::RightBrace) {
                self.next_token();
            }
            let ghost before = node;
            node.add_child(body);
            proof {
                lemma_add_child_parsed(before, node, body);
                let b = block(cs, g, "body"@).0;
                lemma_push_child_matches(
                    before,
                    node,
                    body,
                    NodeSpec {
                        raw_body: crate::grammar::body_text(cs, f.cur_end, h),
                        ..leaf(NodeType::Function, name)
                    },
                    b,
                );
                assert(seq![b] =~= Seq::<NodeSpec>::empty().push(b));
            }
        }
        proof {
            lemma_parsed_from_children(node);
        }
        Ok(node)
    }

    /// Parses `return <expression>`.
    fn parse_return_statement(&mut self) -> (r: Result<AstNode, String>)
        requires
            old(self).wf(),
            old(self).view().cur is Return,
        ensures
            final(self).wf(),
            final(self).text() == old(self).text(),
            result_matches(r, return_statement(old(self).text(), old(self).view()).0),
            final(self).view() == return_statement(old(self).text(), old(self).view()).1,
            final(self).measure() < old(self).measure(),
            r is Ok ==> parsed_shape(r->Ok_0),
    {
        let ghost cs = self.text();
        self.next_token();
        let ghost d = self.view();
        let mut node = AstNode::new(NodeType::ReturnStatement, String::from_str("return"));
        match self.parse_expression_statement() {
            Ok(expr) => {
                let ghost before = node;
                node.add_child(expr);
                proof {
                    lemma_add_child_parsed(before, node, expr);
                    let e = expression_statement(cs, d).0;
                    lemma_push_child_matches(
                        before,
                        node,
                        expr,
                        leaf(NodeType::ReturnStatement, "return"@),
                        e,
                    );
                    assert(seq![e] =~= Seq::<NodeSpec>::empty().push(e));
                }
            },
            Err(e) => {
                return Err(e);
            },
        }
        if matches!(self.current_token, Token::Semicolon) {
            self.next_token();
        }
        proof {
            lemma_parsed_from_children(node);
        }
        Ok(node)
    }

    /// Parses `if (...) { ... }`; calls made in the condition become
    /// children of the statement, before the block.
    #[verifier::rlimit(100)]
    fn parse_if_statement(&mut self) -> (r: Result<AstNode, String>)
        requires
            old(self).wf(),
            old(self).view().cur is If,
        ensures
            final(self).wf(),
            final(self).text() == old(self).text(),
            result_matches(r, if_statement(old(self).text(), old(self).view()).0),
            final(self).view() == if_statement(old(self).text(), old(self).view()).1,
            final(self).measure() < old(self).measure(),
            r is Ok ==> parsed_shape(r->Ok_0),
        decreases old(self).measure(), 0int,
    {
        let ghost cs = self.text();
        let ghost c0 = self.view();
        self.next_token();
        let mut node = AstNode::new(NodeType::IfStatement, String::from_str("if"));
        let ghost mut calls: Seq<NodeSpec> = Seq::empty();
        if matches!(self.current_token, Token::LeftParen) {
            self.next_token();
            let ghost c1 = self.view();
            assert(nodes_match(node.children@, Seq::empty()));
            self.parse_condition_calls(&mut node.children, Ghost(Seq::empty()));
            proof {
                calls = condition_calls(cs, c1, Seq::empty()).0;
            }
            if matches!(self.current_token, Token::RightParen) {
                self.next_token();
            }
        }
        assert(node_matches(
            node,
            NodeSpec { children: calls, ..leaf(NodeType::IfStatement, "if"@) },
        ));
        assert(children_parsed(node));
        if matches!(self.current_token, Token::LeftBrace) {
            self.next_token();
            let ghost g = self.view();
            let block = self.parse_block("then_block");
            if matches!(self.current_token, Token::RightBrace) {
                self.next_token();
            }
            let ghost before = node;
            node.add_child(block);
            proof {
                lemma_add_child_parsed(before, node, block);
                lemma_push_child_matches(
                    before,
                    node,
                    block,
                    NodeSpec { children: calls, ..leaf(NodeType::IfStatement, "if"@) },
                    crate::grammar::block(cs, g, "then_block"@).0,
                );
            }
        }
        proof {
            lemma_parsed_from_children(node);
        }
        Ok(node)
    }

    /// Parses `let name ...`; the rest of the declaration is skipped.
    fn parse_variable_declaration(&mut self) -> (r: Result<AstNode, String>)
        requires
            old(self).wf(),
            old(self).view().cur is Let,
        ensures
            final(self).wf(),
            final(self).text() == old(self).text(),
            result_matches(r, variable_declaration(old(self).text(), old(self).view()).0),
            final(self).view() == variable_declaration(old(self).text(), old(self).view()).1,
            final(self).measure() < old(self).measure(),
            r is Ok ==> parsed_shape(r->Ok_0),
    {
        self.next_token();
        let node = match &self.current_token {
            Token::Identifier(name) => AstNode::new(NodeType::Variable, name.clone()),
            _ => {
                return Err(String::from_str("Expected variable name"));
            },
        };
        self.next_token();
        self.skip_to_statement_end();
        Ok(node)
    }

    /// Parses a call `name(...)`, an assignment `name = ...`, or skips an
    /// expression of another kind.
    fn parse_expression_statement(&mut self) -> (r: Result<AstNode, String>)
        requires
            old(self).wf(),
        ensures
            final(self).wf(),
            final(self).text() == old(self).text(),
            r is Ok,
            node_matches(r->Ok_0, expression_statement(old(self).text(), old(self).view()).0),
            final(self).view() == expression_statement(old(self).text(), old(self).view()).1,
            final(self).measure() <= old(self).measure(),
            old(self).view().cur is Identifier ==> final(self).measure() < old(self).measure(),
            parsed_shape(r->Ok_0),
    {
        if let Token::Identifier(name) = &self.current_token {
            let name = name.clone();
            if matches!(self.peek_token, Token::LeftParen) {
                self.next_token();
                self.next_token();
                let node = AstNode::new(NodeType::CallExpression, name);
                self.skip_past_right_paren();
                if matches!(self.current_token, Token::Semicolon) {
                    self.next_token();
                }
                return Ok(node);
            } else if matches!(self.peek_token, Token::Equals) {
                self.next_token();
                self.next_token();
                let node = AstNode::new(NodeType::AssignmentExpression, name);
                self.skip_to_statement_end();
                return Ok(node);
            }
        }
        let node = AstNode::new(NodeType::Expression, String::from_str("expression"));
        self.skip_to_statement_end();
        Ok(node)
    }
}

impl Parser {
    /// Scans an `if` condition up to the `)` that closes it, appending a
    /// call node for each `name(` found, nested ones included, in source
    /// order; parentheses nest.
    fn parse_condition_calls(&mut self, acc: &mut Vec<AstNode>, Ghost(prior): Ghost<Seq<NodeSpec>>)
        requires
            old(self).wf(),
            nodes_match(old(acc)@, prior),
            forall|i: int| 0 <= i < old(acc)@.len() ==> parsed_shape(#[trigger] old(acc)@[i]),
        ensures
            final(self).wf(),
            final(self).text() == old(self).text(),
            nodes_match(final(acc)@, condition_calls(old(self).text(), old(self).view(), prior).0),
            final(self).view() == condition_calls(old(self).text(), old(self).view(), prior).1,
            final(self).measure() <= old(self).measure(),
            forall|i: int| 0 <= i < final(acc)@.len() ==> parsed_shape(#[trigger] final(acc)@[i]),
        decreases old(self).measure(),
    {
        let ghost cs = self.text();
        let ghost c0 = self.view();
        let ghost mut found = prior;
        loop
            invariant
                self.wf(),
                self.text() == cs,
                cs == old(self).text(),
                c0 == old(self).view(),
                condition_calls(cs, self.view(), found) == condition_calls(cs, c0, prior),
                nodes_match(acc@, found),
                forall|i: int| 0 <= i < acc@.len() ==> parsed_shape(#[trigger] acc@[i]),
                self.measure() <= cursor_measure(cs, c0),
            ensures
                condition_calls(cs, c0, prior) == (found, self.view()),
            decreases self.measure(),
        {
            let ghost c = self.view();
            if matches!(self.current_token, Token::RightParen) || matches!(
                self.current_token,
                Token::Eof,
            ) {
                break;
            }
            if matches!(self.peek_token, Token::LeftParen) {
                if let Token::Identifier(name) = &self.current_token {
                    let call = AstNode::new(NodeType::CallExpression, name.clone());
                    let ghost n = leaf(NodeType::CallExpression, c.cur->Identifier_0);
                    let ghost before = acc@;
                    acc.push(call);
                    proof {
                        assert forall|i: int| 0 <= i < acc@.len() implies node_matches(
                            #[trigger] acc@[i],
                            found.push(n)[i],
                        ) by {
                            if i < before.len() {
                                assert(acc@[i] == before[i]);
                            }
                        }
                        assert forall|i: int| 0 <= i < acc@.len() implies parsed_shape(
                            #[trigger] acc@[i],
                        ) by {
                            if i < before.len() {
                                assert(acc@[i] == before[i]);
                            }
                        }
                        found = found.push(n);
                    }
                    self.next_token();
                    continue;
                }
            }
            if matches!(self.current_token, Token::LeftParen) {
                self.next_token();
                let ghost d = self.view();
                self.parse_condition_calls(acc, Ghost(found));
                proof {
                    found = condition_calls(cs, d, found).0;
                }
                if matches!(self.current_token, Token::RightParen) {
                    self.next_token();
                }
            } else {
                self.next_token();
            }
        }
    }
}

impl Token {
    /// The name of the token's kind, such as `Identifier` or `Newline`.
    pub fn kind_name(&self) -> (r: &'static str)
        ensures
            r@ == kind_name(self@),
    {
        match self {
            Token::CompliancePrefix(_) => "CompliancePrefix",
            Token::Identifier(_) => "Identifier",
            Token::String(_) => "String",
            Token::Number(_) => "Number",
            Token::LeftParen => "LeftParen",
            Token::RightParen => "RightParen",
            Token::LeftBrace => "LeftBrace",
            Token::RightBrace => "RightBrace",
            Token::Semicolon => "Semicolon",
            Token::Comma => "Comma",
            Token::Dot => "Dot",
            Token::Colon => "Colon",
            Token::Equals => "Equals",
            Token::Function => "Function",
            Token::Let => "Let",
            Token::If => "If",
            Token::Else => "Else",
            Token::Return => "Return",
            Token::Newline => "Newline",
            Token::Eof => "Eof",
            Token::Invalid(_) => "Invalid",
        }
    }
}

} // verus!
