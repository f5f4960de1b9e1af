use vstd::prelude::*;
use crate::keys::{key_to_bytes, spec_key_bytes, KeyPress};
use std::io::Read;
use std::io::Write;

verus! {

/// vt100's terminal emulator held behind one opaque wrapper (its parser
/// type carries a defaulted generic parameter the verifier refuses to
/// declare); the verifier sees nothing inside a value of it.
#[verifier::external_body]
pub struct Emulator {
    parser: vt100::Parser,
}

/// The grid size (columns, rows) an emulator is currently set to.
pub uninterp spec fn emu_size(p: Emulator) -> (u16, u16);

/// The rendered text of an emulator's visible screen.
pub uninterp spec fn emu_contents(p: Emulator) -> Seq<char>;

/// The cursor position (row, column) of an emulator's screen.
pub uninterp spec fn emu_cursor(p: Emulator) -> (u16, u16);

/// Relies on vt100::Parser::new: a fresh parser sized rows x cols. A zero
/// dimension is excluded: vt100's grid arithmetic underflows on it.
#[verifier::external_body]
fn emu_new(rows: u16, cols: u16, scrollback: usize) -> (p: Emulator)
    requires
        rows >= 1,
        cols >= 1,
    ensures
        emu_size(p) == (cols, rows),
{
    Emulator { parser: vt100::Parser::new(rows, cols, scrollback) }
}

/// Relies on vt100::Parser::process: interprets output bytes into the
/// screen; only Screen::set_size changes the grid size.
#[verifier::external_body]
fn emu_process(p: &mut Emulator, bytes: &[u8])
    ensures
        emu_size(*final(p)) == emu_size(*old(p)),
{
    p.parser.process(bytes)
}

/// Relies on vt100::Screen::set_size, reached through Parser::screen_mut:
/// sets the grid to rows x cols without resetting it; the cursor keeps its
/// position, only clamped into the new grid. A zero dimension is excluded:
/// vt100's grid arithmetic underflows on it.
#[verifier::external_body]
fn emu_set_size(p: &mut Emulator, rows: u16, cols: u16)
    requires
        rows >= 1,
        cols >= 1,
    ensures
        emu_size(*final(p)) == (cols, rows),
        emu_cursor(*final(p)) == (
            (if emu_cursor(*old(p)).0 > rows - 1 {
                (rows - 1) as u16
            } else {
                emu_cursor(*old(p)).0
            }),
            (if emu_cursor(*old(p)).1 > cols - 1 {
                (cols - 1) as u16
            } else {
                emu_cursor(*old(p)).1
            }),
        ),
{
    p.parser.screen_mut().set_size(rows, cols)
}

/// Relies on vt100::Screen::contents, reached through Parser::screen: the
/// rendered text of the visible screen.
#[verifier::external_body]
fn emu_contents_text(p: &Emulator) -> (r: String)
    ensures
        r@ == emu_contents(*p),
{
    p.parser.screen().contents()
}

/// Relies on vt100::Screen::cursor_position, reached through Parser::screen.
#[verifier::external_body]
fn emu_cursor_position(p: &Emulator) -> (rc: (u16, u16))
    ensures
        rc == emu_cursor(*p),
{
    p.parser.screen().cursor_position()
}

/// The OS side of one PTY session, opaque to the verifier: the master
/// handle, the writer to the child's input, and the receiving end of the
/// channel the reader pump feeds.
#[verifier::external_body]
pub struct PtyIo {
    master: Box<dyn portable_pty::MasterPty + Send>,
    writer: Box<dyn Write + Send>,
    rx: std::sync::mpsc::Receiver<Vec<u8>>,
}

/// The reader side of one PTY session, opaque to the verifier: the cloned
/// output reader and the sending end of the chunk channel. It is handed to
/// whoever runs the blocking read loop.
#[verifier::external_body]
pub struct PtyPump {
    reader: Box<dyn Read + Send>,
    tx: std::sync::mpsc::Sender<Vec<u8>>,
}

/// The pseudo-terminal could not be allocated or the program not launched.
#[derive(Debug, Clone, Copy, PartialEq, Eq, Structural)]
pub struct SpawnError;

/// The child's input pipe is closed or broken; the session stays usable.
#[derive(Debug, Clone, Copy, PartialEq, Eq, Structural)]
pub struct WriteError;

/// The OS refused the resize; a later differing size will retry.
#[derive(Debug, Clone, Copy, PartialEq, Eq, Structural)]
pub struct ResizeError;

/// portable_pty's master/slave pair, declared so a fresh pair can be carried
/// between the open, launch and split steps; opaque to the verifier.
#[verifier::external_type_specification]
#[verifier::external_body]
pub struct ExPtyPair(portable_pty::PtyPair);

/// Relies on portable_pty's PtySystem::openpty (through native_pty_system):
/// allocates a master/slave pseudo-terminal pair of the given size.
#[verifier::external_body]
fn pty_open(cols: u16, rows: u16) -> (r: Result<portable_pty::PtyPair, SpawnError>) {
    let size = portable_pty::PtySize { rows, cols, pixel_width: 0, pixel_height: 0 };
    match portable_pty::native_pty_system().openpty(size) {
        Ok(pair) => Ok(pair),
        Err(_) => Err(SpawnError),
    }
}

/// Relies on portable_pty's CommandBuilder and SlavePty::spawn_command:
/// launches the program with its arguments on the pair's slave side, with
/// TERM set so the child picks a capable rendering mode.
#[verifier::external_body]
fn pty_launch(pair: &portable_pty::PtyPair, program: &str, args: &Vec<String>) -> (ok: bool) {
    let mut cmd = portable_pty::CommandBuilder::new(program);
    cmd.args(args.iter());
    cmd.env("TERM", "xterm-256color");
    pair.slave.spawn_command(cmd).is_ok()
}

/// Relies on portable_pty's MasterPty::try_clone_reader and take_writer:
/// splits the master into the session's I/O half and the reader pump, the
/// two joined by a std mpsc channel.
#[verifier::external_body]
fn pty_split(pair: portable_pty::PtyPair) -> (r: Result<(PtyIo, PtyPump), SpawnError>) {
    let reader = match pair.master.try_clone_reader() {
        Ok(reader) => reader,
        Err(_) => return Err(SpawnError),
    };
    let writer = match pair.master.take_writer() {
        Ok(writer) => writer,
        Err(_) => return Err(SpawnError),
    };
    let (tx, rx) = std::sync::mpsc::channel();
    Ok((PtyIo { master: pair.master, writer, rx }, PtyPump { reader, tx }))
}

/// Relies on portable_pty::MasterPty::resize: resizes the OS pseudo-terminal.
#[verifier::external_body]
fn io_resize(io: &mut PtyIo, cols: u16, rows: u16) -> (ok: bool) {
    io.master.resize(portable_pty::PtySize { rows, cols, pixel_width: 0, pixel_height: 0 }).is_ok()
}

/// Relies on std's Write::write_all and flush on the child's input; the
/// flush result is dropped, as writes are best-effort.
#[verifier::external_body]
fn io_write(io: &mut PtyIo, bytes: &[u8]) -> (ok: bool) {
    match io.writer.write_all(bytes) {
        Ok(()) => {
            let _ = io.writer.flush();
            true
        },
        Err(_) => false,
    }
}

/// Relies on std's mpsc::Receiver::try_recv: every output chunk the reader
/// pump has queued so far, in arrival order, without blocking; empty when
/// the channel is empty or disconnected.
#[verifier::external_body]
fn io_drain(io: &mut PtyIo) -> (chunks: Vec<Vec<u8>>) {
    let mut chunks = Vec::new();
    while let Ok(chunk) = io.rx.try_recv() {
        chunks.push(chunk);
    }
    chunks
}

/// Relies on std's Read::read on the PTY master and mpsc::Sender::send:
/// blocks for one chunk of child output and forwards it; false at end of
/// stream, on a read error, or once the receiving end is gone.
#[verifier::external_body]
fn pump_forward(pump: &mut PtyPump) -> (more: bool) {
    let mut buf = [0u8; 4096];
    match pump.reader.read(&mut buf) {
        Ok(0) => false,
        Ok(n) => pump.tx.send(buf[..n].to_vec()).is_ok(),
        Err(_) => false,
    }
}

impl PtyPump {
    /// Forwards one chunk of child output to the session's channel, blocking
    /// until the child produces one; false once the stream is done.
    pub fn pump_once(&mut self) -> (more: bool) {
        pump_forward(self)
    }

}

/// What the screen of a session shows: the rendered text and the 0-based
/// cursor position. Recomputed on demand, never cached.
pub struct PtySnapshot {
    pub contents: String,
    pub cursor_row: u16,
    pub cursor_col: u16,
}

/// One embedded terminal: the child process's PTY endpoints, the terminal
/// emulator fed by its output, and the size most recently applied to both.
pub struct PtySession {
    pub io: PtyIo,
    pub parser: Emulator,
    pub cols: u16,
    pub rows: u16,
}

impl PtySession {
    /// The OS pseudo-terminal and the emulator always agree on one positive
    /// size, which `cols`/`rows` mirror.
    pub open spec fn wf(&self) -> bool {
        &&& self.cols >= 1
        &&& self.rows >= 1
        &&& emu_size(self.parser) == (self.cols, self.rows)
    }

    /// Spawns `program` with `args` on a fresh pseudo-terminal sized
    /// cols x rows (callers clamp to at least 1x1), with one reader pump to
    /// be run for the session's lifetime. Fails with `SpawnError` when the
    /// PTY cannot be allocated or the program cannot be launched.
    pub fn spawn_command(program: &str, args: &Vec<String>, cols: u16, rows: u16) -> (r: Result<
        (Self, PtyPump),
        SpawnError,
    >)
        requires
            cols >= 1,
            rows >= 1,
        ensures
            match r {
                Ok((session, _)) => session.wf() && session.cols == cols && session.rows == rows,
                Err(_) => true,
            },
    {
        let pair = match pty_open(cols, rows) {
            Ok(pair) => pair,
            Err(e) => {
                return Err(e);
            },
        };
        if !pty_launch(&pair, program, args) {
            return Err(SpawnError);
        }
        match pty_split(pair) {
            Ok((io, pump)) => {
                let parser = emu_new(rows, cols, 2000);
                Ok((PtySession { io, parser, cols, rows }, pump))
            },
            Err(e) => Err(e),
        }
    }

    /// Spawns a plain shell: `spawn_command` with no arguments.
    pub fn spawn(shell: &str, cols: u16, rows: u16) -> (r: Result<(Self, PtyPump), SpawnError>)
        requires
            cols >= 1,
            rows >= 1,
        ensures
            match r {
                Ok((session, _)) => session.wf() && session.cols == cols && session.rows == rows,
                Err(_) => true,
            },
    {
        let args: Vec<String> = Vec::new();
        Self::spawn_command(shell, &args, cols, rows)
    }

    /// Resizes the OS pseudo-terminal and the emulator together, clamping
    /// both dimensions to at least 1; scrollback and cursor are not reset,
    /// the cursor is only clamped into the new grid. When the OS refuses,
    /// nothing changes and the next differing size will retry.
    pub fn resize(&mut self, cols: u16, rows: u16) -> (r: Result<(), ResizeError>)
        requires
            old(self).wf(),
        ensures
            final(self).wf(),
            r is Ok ==> final(self).cols == (if cols == 0 {
                1u16
            } else {
                cols
            }) && final(self).rows == (if rows == 0 {
                1u16
            } else {
                rows
            }),
            r is Ok ==> emu_cursor(final(self).parser) == (
                (if emu_cursor(old(self).parser).0 > final(self).rows - 1 {
                    (final(self).rows - 1) as u16
                } else {
                    emu_cursor(old(self).parser).0
                }),
                (if emu_cursor(old(self).parser).1 > final(self).cols - 1 {
                    (final(self).cols - 1) as u16
                } else {
                    emu_cursor(old(self).parser).1
                }),
            ),
            r is Err ==> final(self).cols == old(self).cols && final(self).rows == old(self).rows
                && final(self).parser == old(self).parser,
    {
        let cols: u16 = if cols == 0 {
            1
        } else {
            cols
        };
        let rows: u16 = if rows == 0 {
            1
        } else {
            rows
        };
        if io_resize(&mut self.io, cols, rows) {
            emu_set_size(&mut self.parser, rows, cols);
            self.cols = cols;
            self.rows = rows;
            Ok(())
        } else {
            Err(ResizeError)
        }
    }

    /// Drains every output chunk the reader pump has queued, in arrival
    /// order, into the emulator; never blocks. The session size is untouched.
    pub fn poll(&mut self)
        requires
            old(self).wf(),
        ensures
            final(self).wf(),
            final(self).cols == old(self).cols,
            final(self).rows == old(self).rows,
    {
        let chunks = io_drain(&mut self.io);
        let n = chunks.len();
        let mut i: usize = 0;
        while i < n
            invariant
                self.wf(),
                self.cols == old(self).cols,
                self.rows == old(self).rows,
                n == chunks@.len(),
                i <= n,
            decreases n - i,
        {
            emu_process(&mut self.parser, chunks[i].as_slice());
            i = i + 1;
        }
    }

    /// A read-only projection of the current screen: the snapshot is a pure
    /// function of the session, so repeated calls without an intervening
    /// `poll` return identical contents and cursor.
    pub fn snapshot(&self) -> (snap: PtySnapshot)
        ensures
            snap.contents@ == emu_contents(self.parser),
            snap.cursor_row == emu_cursor(self.parser).0,
            snap.cursor_col == emu_cursor(self.parser).1,
    {
        let contents = emu_contents_text(&self.parser);
        let (row, col) = emu_cursor_position(&self.parser);
        PtySnapshot { contents, cursor_row: row, cursor_col: col }
    }

    /// Encodes one key press (see [`crate::keys::spec_key_bytes`]) and
    /// writes the bytes to the child's input. A key with no encoding is a
    /// no-op, never an error; a write failure is surfaced but leaves the
    /// session usable.
    pub fn send_key(&mut self, key: KeyPress) -> (r: Result<(), WriteError>)
        requires
            old(self).wf(),
        ensures
            final(self).wf(),
            final(self).parser == old(self).parser,
            final(self).cols == old(self).cols,
            final(self).rows == old(self).rows,
            spec_key_bytes(key) is None ==> r is Ok,
    {
        match key_to_bytes(key) {
            Some(bytes) => {
                if io_write(&mut self.io, bytes.as_slice()) {
                    Ok(())
                } else {
                    Err(WriteError)
                }
            },
            None => Ok(()),
        }
    }

    /// Writes raw bytes verbatim to the child's input.
    pub fn send_bytes(&mut self, bytes: &[u8]) -> (r: Result<(), WriteError>)
        requires
            old(self).wf(),
        ensures
            final(self).wf(),
            final(self).parser == old(self).parser,
            final(self).cols == old(self).cols,
            final(self).rows == old(self).rows,
    {
        if io_write(&mut self.io, bytes) {
            Ok(())
        } else {
            Err(WriteError)
        }
    }

    /// Writes a text's UTF-8 bytes verbatim to the child's input; used to
    /// inject synthetic input such as a diagnostic line.
    pub fn send_paste(&mut self, text: &str) -> (r: Result<(), WriteError>)
        requires
            old(self).wf(),
        ensures
            final(self).wf(),
            final(self).parser == old(self).parser,
            final(self).cols == old(self).cols,
            final(self).rows == old(self).rows,
    {
        self.send_bytes(text.as_bytes())
    }
}

/// A snapshot is a pure function of the session: any two snapshots that meet
/// `snapshot`'s contract against the same session state are identical.
pub proof fn lemma_snapshot_deterministic(s: &PtySession, a: PtySnapshot, b: PtySnapshot)
    requires
        a.contents@ == emu_contents(s.parser),
        a.cursor_row == emu_cursor(s.parser).0,
        a.cursor_col == emu_cursor(s.parser).1,
        b.contents@ == emu_contents(s.parser),
        b.cursor_row == emu_cursor(s.parser).0,
        b.cursor_col == emu_cursor(s.parser).1,
    ensures
        a.contents@ == b.contents@,
        a.cursor_row == b.cursor_row,
        a.cursor_col == b.cursor_col,
{
}

} // verus!
