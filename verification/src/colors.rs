use vstd::prelude::*;

verus! {

/// The terminal escape sequences that colour a line.
#[derive(Debug)]
pub struct Colors {
    pub red: &'static str,
    pub green: &'static str,
    pub yellow: &'static str,
    pub blue: &'static str,
    pub purple: &'static str,
    pub cyan: &'static str,
    pub white: &'static str,
    pub gray: &'static str,
    pub reset: &'static str,
}

impl Colors {
    /// The sequences of an ANSI terminal.
    pub fn ansi() -> (c: Colors)
        ensures
            c.red@ == "\x1b[0;31m"@,
            c.green@ == "\x1b[0;32m"@,
            c.yellow@ == "\x1b[1;33m"@,
            c.blue@ == "\x1b[0;34m"@,
            c.purple@ == "\x1b[0;35m"@,
            c.cyan@ == "\x1b[0;36m"@,
            c.white@ == "\x1b[1;37m"@,
            c.gray@ == "\x1b[0;37m"@,
            c.reset@ == "\x1b[0m"@,
    {
        Colors {
            red: "\x1b[0;31m",
            green: "\x1b[0;32m",
            yellow: "\x1b[1;33m",
            blue: "\x1b[0;34m",
            purple: "\x1b[0;35m",
            cyan: "\x1b[0;36m",
            white: "\x1b[1;37m",
            gray: "\x1b[0;37m",
            reset: "\x1b[0m",
        }
    }

    /// `message` between `color` and the sequence that ends colouring.
    pub fn paint(&self, color: &str, message: &str) -> (line: String)
        ensures
            line@ == color@ + message@ + self.reset@,
    {
        let mut line = crate::text::joined(color, message);
        line.append(self.reset);
        line
    }
}

} // verus!
