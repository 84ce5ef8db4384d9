use tiempo::printer::{Printer, TermOp};

struct Term {
    rows: Vec<String>,
    line: String,
}

impl Term {
    fn new() -> Term {
        Term { rows: Vec::new(), line: String::new() }
    }

    fn run(&mut self, ops: Vec<TermOp>) {
        for op in ops {
            match op {
                TermOp::ClearLine => self.line.clear(),
                TermOp::Text(t) => self.line.push_str(&t),
                TermOp::NewLine => self.rows.push(std::mem::take(&mut self.line)),
            }
        }
    }
}

#[test]
fn erase_twice_shows_the_line_once() {
    let mut p = Printer::new();
    let mut t = Term::new();
    t.run(p.erase("00:00:05".to_string()));
    let before = t.line.clone();
    t.run(p.erase("00:00:05".to_string()));
    assert_eq!(t.line, "00:00:05");
    assert_eq!(before, t.line);
    assert!(t.rows.is_empty());
}

#[test]
fn erase_replaces_the_status_line() {
    let mut p = Printer::new();
    let mut t = Term::new();
    t.run(p.erase("00:00:05".to_string()));
    t.run(p.erase("00:00:04".to_string()));
    assert_eq!(t.line, "00:00:04");
}

#[test]
fn print_ends_the_line_and_resets() {
    let mut p = Printer::new();
    let mut t = Term::new();
    t.run(p.erase("00:00:01".to_string()));
    let ops = p.print("done".to_string());
    assert!(matches!(ops[0], TermOp::ClearLine));
    t.run(ops);
    assert_eq!(t.rows, vec!["done".to_string()]);
    assert_eq!(t.line, "");
    let ops = p.erase("next".to_string());
    assert_eq!(ops.len(), 1);
    t.run(ops);
    assert_eq!(t.line, "next");
}
