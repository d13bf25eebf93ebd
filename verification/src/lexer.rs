//! Rule-based lexer: a set of token rules is matched against the source by
//! maximal munch.  Whitespace separates tokens and newlines advance the line
//! counter; a position where no rule completes is a recoverable error that
//! consumes the offending prefix, and two rules completing at the same
//! maximal length are reported as ambiguous.

use vstd::prelude::*;
use crate::debug::Span;

verus! {

/// Tokens the rule set can produce.
#[derive(Debug, Clone, Copy, PartialEq, Eq, Structural)]
pub enum Token {
    IntegerLiteral(i64),
    Comment,
    EOF,
}

/// A token with its source span and line number.
#[derive(Debug, Clone, Copy, PartialEq, Eq, Structural)]
pub struct TokenOut {
    pub token: Token,
    pub location: Span,
    pub lineno: u64,
}

/// What went wrong at a source position.
#[derive(Debug, Clone, Copy, PartialEq, Eq, Structural)]
pub enum LexerErrorType {
    /// No rule completes at this position.
    NoMatchingRule,
    /// Two or more rules complete at the same maximal length.
    AmbiguousMatch,
}

/// A lexical error with the span it covers and its line number.
#[derive(Debug, Clone, Copy, PartialEq, Eq, Structural)]
pub struct LexerError {
    pub etype: LexerErrorType,
    pub location: Span,
    pub lineno: u64,
}

/// A token rule: what it matches and the token it produces.
#[derive(Debug)]
pub enum LexerRule {
    /// Matches one exact character.
    SingleChar(Token, char),
    /// Matches an exact character sequence.
    Exact(Token, Vec<char>),
    /// Matches a comment leader through the end of the line, newline
    /// included.
    Comment(char),
}

/// Rule matching one exact character.
pub struct SingleCharRule;

impl SingleCharRule {
    /// A rule producing `token` for the character `what`.
    pub fn new(token: Token, what: char) -> (r: LexerRule)
        ensures
            r == LexerRule::SingleChar(token, what),
    {
        LexerRule::SingleChar(token, what)
    }
}

/// Rule matching an exact string.
pub struct ExactRule;

impl ExactRule {
    /// A rule producing `token` for the exact text `what`.
    pub fn new(token: Token, what: &str) -> (r: LexerRule)
        ensures
            r matches LexerRule::Exact(t, chars) && t == token && chars@ == what@,
    {
        let n = what.unicode_len();
        let mut chars: Vec<char> = Vec::new();
        let mut i: usize = 0;
        while i < n
            invariant
                i <= n,
                n == what@.len(),
                chars@ == what@.subrange(0, i as int),
            decreases n - i,
        {
            chars.push(what.get_char(i));
            proof {
                assert(chars@ =~= what@.subrange(0, i + 1));
            }
            i += 1;
        }
        proof {
            assert(chars@ =~= what@);
        }
        LexerRule::Exact(token, chars)
    }
}

/// Rule matching a line comment from its leader character to the end of the
/// line.
pub struct CommentRule;

impl CommentRule {
    /// A rule producing a `Comment` token for text led by `comment`.
    pub fn new(comment: char) -> (r: LexerRule)
        ensures
            r == LexerRule::Comment(comment),
    {
        LexerRule::Comment(comment)
    }
}

/// Collects rules and builds a lexer over a source text.
pub struct LexerBuilder {
    pub rules: Vec<LexerRule>,
}

impl LexerBuilder {
    /// A builder with no rules.
    pub fn new() -> (r: LexerBuilder)
        ensures
            r.rules@.len() == 0,
    {
        LexerBuilder { rules: Vec::new() }
    }

    /// Adds one rule; earlier rules win no special priority, only match
    /// length decides.
    pub fn add_rule(self, rule: LexerRule) -> (r: LexerBuilder)
        ensures
            r.rules@ == self.rules@.push(rule),
    {
        let mut rules = self.rules;
        rules.push(rule);
        LexerBuilder { rules }
    }

    /// A lexer over `source` with the collected rules, positioned at the
    /// start, on line 1.
    pub fn build(self, source: &str) -> (r: Lexer)
        ensures
            r.chars@ == source@,
            r.pos == 0,
            r.lineno == 1,
    {
        let n = source.unicode_len();
        let mut chars: Vec<char> = Vec::new();
        let mut i: usize = 0;
        while i < n
            invariant
                i <= n,
                n == source@.len(),
                chars@ == source@.subrange(0, i as int),
            decreases n - i,
        {
            chars.push(source.get_char(i));
            proof {
                assert(chars@ =~= source@.subrange(0, i + 1));
            }
            i += 1;
        }
        proof {
            assert(chars@ =~= source@);
        }
        Lexer { chars, pos: 0, lineno: 1, rules: self.rules }
    }
}

/// The lexer: the source as characters, the current position and line, and
/// the rule set.
pub struct Lexer {
    pub chars: Vec<char>,
    pub pos: usize,
    pub lineno: u64,
    pub rules: Vec<LexerRule>,
}

/// Whether a character separates tokens.
pub open spec fn spec_is_token_space(c: char) -> bool {
    c == ' ' || c == '\t' || c == '\r' || c == '\n'
}

impl Lexer {
    /// The lexer's position never runs past the end of the source.
    pub open spec fn wf(&self) -> bool {
        self.pos <= self.chars@.len()
    }

    fn is_space(c: char) -> (r: bool)
        ensures
            r == spec_is_token_space(c),
    {
        c == ' ' || c == '\t' || c == '\r' || c == '\n'
    }

    /// How far `rule` matches at `start`: the length of its complete match
    /// (0 when it does not complete) and the length of its longest partial
    /// prefix match that could still have continued.
    fn match_lengths(&self, rule_index: usize, start: usize) -> (r: (usize, usize))
        requires
            rule_index < self.rules@.len(),
            start < self.chars@.len(),
        ensures
            start + r.0 <= self.chars@.len(),
            start + r.1 <= self.chars@.len(),
    {
        let n = self.chars.len();
        match &self.rules[rule_index] {
            LexerRule::SingleChar(_, what) => {
                if self.chars[start] == *what {
                    (1, 0)
                } else {
                    (0, 0)
                }
            },
            LexerRule::Exact(_, text) => {
                let want = text.len();
                let mut matched: usize = 0;
                while matched < want && start + matched < n && text[matched] == self.chars[start
                    + matched]
                    invariant
                        matched <= want,
                        start + matched <= n,
                        n == self.chars@.len(),
                        want == text@.len(),
                    decreases want - matched,
                {
                    matched += 1;
                }
                if matched == want {
                    (want, 0)
                } else {
                    (0, matched)
                }
            },
            LexerRule::Comment(leader) => {
                if self.chars[start] == *leader {
                    let mut end = start;
                    while end < n && self.chars[end] != '\n'
                        invariant
                            start <= end <= n,
                            n == self.chars@.len(),
                        decreases n - end,
                    {
                        end += 1;
                    }
                    if end < n {
                        // the comment includes its terminating newline
                        (end + 1 - start, 0)
                    } else {
                        (end - start, 0)
                    }
                } else {
                    (0, 0)
                }
            },
        }
    }

    /// The token `rule` produces when it completes.
    fn rule_token(&self, rule_index: usize) -> (r: Token)
        requires
            rule_index < self.rules@.len(),
    {
        match &self.rules[rule_index] {
            LexerRule::SingleChar(token, _) => *token,
            LexerRule::Exact(token, _) => *token,
            LexerRule::Comment(_) => Token::Comment,
        }
    }

    /// Advances over `count` characters, counting the newlines among them.
    fn advance(&mut self, count: usize)
        requires
            old(self).wf(),
            old(self).pos + count <= old(self).chars@.len(),
        ensures
            final(self).wf(),
            final(self).pos == old(self).pos + count,
            final(self).chars@ == old(self).chars@,
            final(self).rules@ == old(self).rules@,
    {
        let n = self.chars.len();
        let stop = self.pos + count;
        while self.pos < stop
            invariant
                self.pos <= stop,
                stop <= n,
                n == self.chars@.len(),
                self.chars@ == old(self).chars@,
                self.rules@ == old(self).rules@,
            decreases stop - self.pos,
        {
            if self.chars[self.pos] == '\n' && self.lineno < u64::MAX {
                self.lineno = self.lineno + 1;
            }
            self.pos = self.pos + 1;
        }
    }

    /// The next token of the source: skips whitespace, applies every rule at
    /// the current position, and takes the unique longest complete match.
    /// At the end of the source an `EOF` token is produced.  A position
    /// where no rule completes consumes the failed prefix and reports
    /// `NoMatchingRule`; two rules completing at the same maximal length
    /// consume the match and report `AmbiguousMatch`, so lexing can resume
    /// after either error.
    pub fn next_token(&mut self) -> (r: Result<TokenOut, LexerError>)
        requires
            old(self).wf(),
        ensures
            final(self).wf(),
            final(self).pos >= old(self).pos,
            final(self).chars@ == old(self).chars@,
            final(self).rules@ == old(self).rules@,
            match r {
                Ok(out) => out.location.index + out.location.length <= final(self).pos,
                Err(e) => e.location.index + e.location.length == final(self).pos,
            },
    {
        let n = self.chars.len();
        // whitespace separates tokens and advances the line counter
        while self.pos < n && Self::is_space(self.chars[self.pos])
            invariant
                self.pos <= n,
                n == self.chars@.len(),
                self.pos >= old(self).pos,
                self.chars@ == old(self).chars@,
                self.rules@ == old(self).rules@,
            decreases n - self.pos,
        {
            if self.chars[self.pos] == '\n' && self.lineno < u64::MAX {
                self.lineno = self.lineno + 1;
            }
            self.pos = self.pos + 1;
        }
        if self.pos >= n {
            return Ok(
                TokenOut {
                    token: Token::EOF,
                    location: Span { index: self.pos as u64, length: 0 },
                    lineno: self.lineno,
                },
            );
        }
        let start = self.pos;
        let start_line = self.lineno;
        // maximal munch over all rules
        let rule_count = self.rules.len();
        let mut best_len: usize = 0;
        let mut best_token = Token::EOF;
        let mut best_count: usize = 0;
        let mut max_partial: usize = 0;
        let mut i: usize = 0;
        while i < rule_count
            invariant
                i <= rule_count,
                rule_count == self.rules@.len(),
                start < n,
                n == self.chars@.len(),
                self.pos == start,
                start >= old(self).pos,
                self.chars@ == old(self).chars@,
                self.rules@ == old(self).rules@,
                start + best_len <= n,
                start + max_partial <= n,
                best_len > 0 ==> best_count >= 1,
                best_count <= i,
            decreases rule_count - i,
        {
            let (complete, partial) = self.match_lengths(i, start);
            if complete > best_len {
                best_len = complete;
                best_token = self.rule_token(i);
                best_count = 1;
            } else if complete > 0 && complete == best_len {
                best_count = best_count + 1;
            }
            if partial > max_partial {
                max_partial = partial;
            }
            i += 1;
        }
        if best_len == 0 {
            // no rule completes: consume the longest failed prefix and the
            // character that killed it
            let error_len = if max_partial >= n - start {
                n - start
            } else {
                max_partial + 1
            };
            self.advance(error_len);
            return Err(
                LexerError {
                    etype: LexerErrorType::NoMatchingRule,
                    location: Span { index: start as u64, length: error_len as u64 },
                    lineno: start_line,
                },
            );
        }
        self.advance(best_len);
        if best_count > 1 {
            return Err(
                LexerError {
                    etype: LexerErrorType::AmbiguousMatch,
                    location: Span { index: start as u64, length: best_len as u64 },
                    lineno: start_line,
                },
            );
        }
        Ok(
            TokenOut {
                token: best_token,
                location: Span { index: start as u64, length: best_len as u64 },
                lineno: start_line,
            },
        )
    }
}

} // verus!
