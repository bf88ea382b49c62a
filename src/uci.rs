//! The UCI protocol's command vocabulary and the messages passed between the
//! front-end's units.
use vstd::prelude::*;
use crate::fen::{fields_of, split_fields, views};
use crate::notation::{chars_of, push_char};

verus! {

/// A command sent by the GUI to the engine.
#[derive(Debug, PartialEq)]
pub enum UciGuiToEngine {
    Uci,
    Debug(String),
    IsReady,
    SetOption(String),
    UciNewGame,
    Position(String),
    Go(String),
    Stop,
    PonderHit,
    Quit,
}

/// A reply sent by the engine to the GUI.
#[derive(Debug, PartialEq)]
pub enum UciEngineToGui {
    Id(String),
    UciOk,
    ReadyOk,
    BestMove(String),
    CopyProtection(String),
    Registration(String),
    Info(String),
    Option(String),
}

/// A request from the coordinator to the engine worker.
#[derive(Debug, PartialEq)]
pub enum HandlerTx {
    NewFen(String),
    StartingPosition(String),
    StartSearch,
    StopSearch,
    MakeMove(String),
}

/// What reaches the coordinator: a report of the engine worker, or a
/// command read from the GUI.
#[derive(Debug, PartialEq)]
pub enum HandlerRx {
    EngineMsg(EngineMsg),
    GuiMsg(UciGuiToEngine),
}

/// A report of the engine worker.
#[derive(Debug, PartialEq)]
pub enum EngineMsg {
    PositionSet,
    CurrentBestMove(String),
    FinalBestMove(String),
}

/// Words joined by single spaces.
pub open spec fn join_words(ws: Seq<Seq<char>>) -> Seq<char>
    decreases ws.len(),
{
    if ws.len() == 0 {
        Seq::empty()
    } else if ws.len() == 1 {
        ws[0]
    } else {
        join_words(ws.drop_last()) + seq![' '] + ws.last()
    }
}

/// Does the text equal the string?
pub fn same_text(v: &Vec<char>, w: &str) -> (r: bool)
    ensures
        r == (v@ == w@),
{
    let t = chars_of(w);
    if v.len() != t.len() {
        return false;
    }
    let mut i: usize = 0;
    while i < v.len()
        invariant
            v@.len() == t@.len(),
            t@ == w@,
            i <= v@.len(),
            forall|j: int| 0 <= j < i ==> v@[j] == t@[j],
        decreases v@.len() - i,
    {
        if v[i] != t[i] {
            return false;
        }
        i = i + 1;
    }
    assert(v@ =~= t@);
    true
}

/// Appends the characters of `t`.
pub fn push_text(s: &mut String, t: &Vec<char>)
    ensures
        final(s)@ == old(s)@ + t@,
{
    let mut i: usize = 0;
    while i < t.len()
        invariant
            i <= t@.len(),
            s@ == old(s)@ + t@.subrange(0, i as int),
        decreases t@.len() - i,
    {
        push_char(s, t[i]);
        i = i + 1;
        assert(s@ =~= old(s)@ + t@.subrange(0, i as int));
    }
    assert(t@.subrange(0, i as int) =~= t@);
}

/// A string holding `a` followed by `b`.
pub fn concat(a: &str, b: &str) -> (r: String)
    ensures
        r@ == a@ + b@,
{
    let mut s = String::new();
    push_text(&mut s, &chars_of(a));
    push_text(&mut s, &chars_of(b));
    assert(s@ =~= a@ + b@);
    s
}

/// The words `ws[from..]` joined by single spaces.
pub fn join_from(ws: &Vec<Vec<char>>, from: usize) -> (r: String)
    requires
        from <= ws@.len(),
    ensures
        r@ == join_words(views(ws@).subrange(from as int, ws@.len() as int)),
{
    let mut s = String::new();
    if from >= ws.len() {
        assert(views(ws@).subrange(from as int, ws@.len() as int) =~= Seq::<Seq<char>>::empty());
        return s;
    }
    let mut i: usize = from;
    while i < ws.len()
        invariant
            from <= i <= ws@.len(),
            from < ws@.len(),
            s@ == join_words(views(ws@).subrange(from as int, i as int)),
        decreases ws@.len() - i,
    {
        let ghost before = s@;
        let ghost prev = views(ws@).subrange(from as int, i as int);
        let ghost next = views(ws@).subrange(from as int, i + 1);
        assert(next.drop_last() =~= prev);
        assert(next.last() == ws@[i as int]@);
        if i > from {
            push_char(&mut s, ' ');
        } else {
            assert(prev.len() == 0);
        }
        push_text(&mut s, &ws[i]);
        i = i + 1;
        assert(s@ =~= join_words(next));
    }
    s
}

/// The command that a line of text holds: its first word names it, and the
/// commands that take an argument get the remaining words joined by spaces.
pub open spec fn command_matches(r: Option<UciGuiToEngine>, input: Seq<char>) -> bool {
    let f = fields_of(input);
    let rest = join_words(f.subrange(1, f.len() as int));
    if f.len() == 0 {
        r is None
    } else {
        let w = f[0];
        if w == "uci"@ {
            r == Some(UciGuiToEngine::Uci)
        } else if w == "debug"@ {
            r matches Some(UciGuiToEngine::Debug(s)) && s@ == rest
        } else if w == "isready"@ {
            r == Some(UciGuiToEngine::IsReady)
        } else if w == "setoption"@ {
            r matches Some(UciGuiToEngine::SetOption(s)) && s@ == rest
        } else if w == "ucinewgame"@ {
            r == Some(UciGuiToEngine::UciNewGame)
        } else if w == "position"@ {
            r matches Some(UciGuiToEngine::Position(s)) && s@ == rest
        } else if w == "go"@ {
            r matches Some(UciGuiToEngine::Go(s)) && s@ == rest
        } else if w == "stop"@ {
            r == Some(UciGuiToEngine::Stop)
        } else if w == "ponderhit"@ {
            r == Some(UciGuiToEngine::PonderHit)
        } else if w == "quit"@ {
            r == Some(UciGuiToEngine::Quit)
        } else {
            r is None
        }
    }
}

impl UciGuiToEngine {
    /// Reads one line of GUI input; `None` for an unknown or empty line.
    pub fn from_string(input: &str) -> (r: Option<UciGuiToEngine>)
        ensures
            command_matches(r, input@),
    {
        let text = chars_of(input);
        let parts = split_fields(&text);
        if parts.len() == 0 {
            return None;
        }
        let w = &parts[0];
        assert(views(parts@)[0] == w@);
        if same_text(w, "uci") {
            Some(UciGuiToEngine::Uci)
        } else if same_text(w, "debug") {
            Some(UciGuiToEngine::Debug(join_from(&parts, 1)))
        } else if same_text(w, "isready") {
            Some(UciGuiToEngine::IsReady)
        } else if same_text(w, "setoption") {
            Some(UciGuiToEngine::SetOption(join_from(&parts, 1)))
        } else if same_text(w, "ucinewgame") {
            Some(UciGuiToEngine::UciNewGame)
        } else if same_text(w, "position") {
            Some(UciGuiToEngine::Position(join_from(&parts, 1)))
        } else if same_text(w, "go") {
            Some(UciGuiToEngine::Go(join_from(&parts, 1)))
        } else if same_text(w, "stop") {
            Some(UciGuiToEngine::Stop)
        } else if same_text(w, "ponderhit") {
            Some(UciGuiToEngine::PonderHit)
        } else if same_text(w, "quit") {
            Some(UciGuiToEngine::Quit)
        } else {
            None
        }
    }
}

/// The line that sends a reply to the GUI.
pub open spec fn line_of(m: UciEngineToGui) -> Seq<char> {
    match m {
        UciEngineToGui::Id(s) => "id "@ + s@,
        UciEngineToGui::UciOk => "uciok"@,
        UciEngineToGui::ReadyOk => "readyok"@,
        UciEngineToGui::BestMove(s) => "bestmove "@ + s@,
        UciEngineToGui::CopyProtection(s) => "copyprotection "@ + s@,
        UciEngineToGui::Registration(s) => "registration "@ + s@,
        UciEngineToGui::Info(s) => "info "@ + s@,
        UciEngineToGui::Option(s) => "option "@ + s@,
    }
}

/// A string holding the characters of `s`.
pub fn copy_text(s: &str) -> (r: String)
    ensures
        r@ == s@,
{
    let mut t = String::new();
    push_text(&mut t, &chars_of(s));
    assert(t@ =~= s@);
    t
}

impl UciEngineToGui {
    pub fn id_name(name: &str) -> (r: UciEngineToGui)
        ensures
            r matches UciEngineToGui::Id(s) && s@ == "name "@ + name@,
    {
        UciEngineToGui::Id(concat("name ", name))
    }

    pub fn id_author(author: &str) -> (r: UciEngineToGui)
        ensures
            r matches UciEngineToGui::Id(s) && s@ == "author "@ + author@,
    {
        UciEngineToGui::Id(concat("author ", author))
    }

    pub fn uci_ok() -> (r: UciEngineToGui)
        ensures
            r == UciEngineToGui::UciOk,
    {
        UciEngineToGui::UciOk
    }

    pub fn ready_ok() -> (r: UciEngineToGui)
        ensures
            r == UciEngineToGui::ReadyOk,
    {
        UciEngineToGui::ReadyOk
    }

    pub fn best_move(mov: &str) -> (r: UciEngineToGui)
        ensures
            r matches UciEngineToGui::BestMove(s) && s@ == mov@,
    {
        UciEngineToGui::BestMove(copy_text(mov))
    }

    pub fn copy_protection(s: &str) -> (r: UciEngineToGui)
        ensures
            r matches UciEngineToGui::CopyProtection(t) && t@ == s@,
    {
        UciEngineToGui::CopyProtection(copy_text(s))
    }

    pub fn registration(s: &str) -> (r: UciEngineToGui)
        ensures
            r matches UciEngineToGui::Registration(t) && t@ == s@,
    {
        UciEngineToGui::Registration(copy_text(s))
    }

    pub fn info(s: &str) -> (r: UciEngineToGui)
        ensures
            r matches UciEngineToGui::Info(t) && t@ == s@,
    {
        UciEngineToGui::Info(copy_text(s))
    }

    pub fn option(s: &str) -> (r: UciEngineToGui)
        ensures
            r matches UciEngineToGui::Option(t) && t@ == s@,
    {
        UciEngineToGui::Option(copy_text(s))
    }

    /// The protocol line for this reply, e.g. "bestmove e2e4".
    pub fn to_line(&self) -> (r: String)
        ensures
            r@ == line_of(*self),
    {
        match self {
            UciEngineToGui::Id(s) => concat("id ", s.as_str()),
            UciEngineToGui::UciOk => copy_text("uciok"),
            UciEngineToGui::ReadyOk => copy_text("readyok"),
            UciEngineToGui::BestMove(s) => concat("bestmove ", s.as_str()),
            UciEngineToGui::CopyProtection(s) => concat("copyprotection ", s.as_str()),
            UciEngineToGui::Registration(s) => concat("registration ", s.as_str()),
            UciEngineToGui::Info(s) => concat("info ", s.as_str()),
            UciEngineToGui::Option(s) => concat("option ", s.as_str()),
        }
    }
}

} // verus!
