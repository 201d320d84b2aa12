use vstd::prelude::*;

verus! {

/// How grave a diagnostic is.
#[derive(Clone, Copy, Debug, PartialEq, Eq, Structural)]
pub enum ExceptionType {
    Warn,
    Error,
    Info,
}

/// A diagnostic: the source line it is about, its kind, a message and a tip.
#[derive(Clone, Debug)]
pub struct RASMError {
    line: Option<usize>,
    etype: ExceptionType,
    msg: Option<String>,
    tip: Option<String>,
}

/// What a diagnostic says, with its texts as sequences of characters.
pub struct RASMErrorView {
    pub line: Option<usize>,
    pub etype: ExceptionType,
    pub msg: Option<Seq<char>>,
    pub tip: Option<Seq<char>>,
}

/// The view of an optional text.
pub open spec fn text_view(t: Option<String>) -> Option<Seq<char>> {
    match t {
        Some(s) => Some(s@),
        None => None,
    }
}

/// The view of an optional string slice.
pub open spec fn str_view(t: Option<&str>) -> Option<Seq<char>> {
    match t {
        Some(s) => Some(s@),
        None => None,
    }
}

/// The error that `no_tip` makes of a line and a message.
pub open spec fn error_no_tip(line: Option<usize>, msg: Option<&str>) -> RASMErrorView {
    RASMErrorView { line, etype: ExceptionType::Error, msg: str_view(msg), tip: None }
}

/// The error that `with_tip` makes of a line, a message and a tip.
pub open spec fn error_with_tip(line: Option<usize>, msg: Option<&str>, tip: Option<&str>) -> RASMErrorView {
    RASMErrorView { line, etype: ExceptionType::Error, msg: str_view(msg), tip: str_view(tip) }
}

impl RASMErrorView {
    /// The same diagnostic, placed at `line`.
    pub open spec fn at_line(self, line: usize) -> RASMErrorView {
        RASMErrorView { line: Some(line), etype: self.etype, msg: self.msg, tip: self.tip }
    }
}

impl View for RASMError {
    type V = RASMErrorView;

    closed spec fn view(&self) -> RASMErrorView {
        RASMErrorView {
            line: self.line,
            etype: self.etype,
            msg: text_view(self.msg),
            tip: text_view(self.tip),
        }
    }
}

/// The view of an optional diagnostic.
pub open spec fn error_view(e: Option<RASMError>) -> Option<RASMErrorView> {
    match e {
        Some(e) => Some(e@),
        None => None,
    }
}

fn own(t: Option<&str>) -> (r: Option<String>)
    ensures
        text_view(r) == str_view(t),
{
    match t {
        Some(s) => Some(s.to_owned()),
        None => None,
    }
}

impl RASMError {
    /// An error without a tip.
    pub fn no_tip(line: Option<usize>, msg: Option<&str>) -> (r: Self)
        ensures
            r@ == error_no_tip(line, msg),
    {
        Self { line, etype: ExceptionType::Error, msg: own(msg), tip: None }
    }

    /// An error with a tip.
    pub fn with_tip(line: Option<usize>, msg: Option<&str>, tip: Option<&str>) -> (r: Self)
        ensures
            r@ == error_with_tip(line, msg, tip),
    {
        Self { line, etype: ExceptionType::Error, msg: own(msg), tip: own(tip) }
    }

    /// The line the diagnostic is about, if it has one.
    pub fn get_line(&self) -> (r: Option<&usize>)
        ensures
            r.is_some() == self@.line.is_some(),
            r.is_some() ==> *r.unwrap() == self@.line.unwrap(),
    {
        match &self.line {
            Some(l) => Some(l),
            None => None,
        }
    }

    /// Places the diagnostic at `newline`; all else stays.
    pub fn set_line(&mut self, newline: usize)
        ensures
            final(self)@ == old(self)@.at_line(newline),
    {
        self.line = Some(newline);
    }

    /// The kind of the diagnostic.
    pub fn get_type(&self) -> (r: ExceptionType)
        ensures
            r == self@.etype,
    {
        self.etype
    }

    /// The message, if there is one.
    pub fn get_msg(&self) -> (r: Option<&String>)
        ensures
            r.is_some() == self@.msg.is_some(),
            r.is_some() ==> r.unwrap()@ == self@.msg.unwrap(),
    {
        match &self.msg {
            Some(m) => Some(m),
            None => None,
        }
    }

    /// The tip, if there is one.
    pub fn get_tip(&self) -> (r: Option<&String>)
        ensures
            r.is_some() == self@.tip.is_some(),
            r.is_some() ==> r.unwrap()@ == self@.tip.unwrap(),
    {
        match &self.tip {
            Some(t) => Some(t),
            None => None,
        }
    }
}

/// A value that prints as nothing.
pub struct Blank;

impl Blank {
    /// The empty text.
    pub fn to_string(&self) -> (r: String)
        ensures
            r@ == Seq::<char>::empty(),
    {
        String::new()
    }
}

} // verus!
