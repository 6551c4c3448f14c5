//! RestoreHealth with an ISO as the repair source: mount it, find
//! `install.wim` (or `install.esd`), run DISM with it, dismount.
use vstd::prelude::*;

use crate::actions::decode::{decode, decoded};
use crate::actions::script::strings;
use crate::console::{header_lines, text, Con, LineKind, LineView};
use crate::i18n::tr;
use crate::text::{
    chars_of, join2, join3, lang, line_end, lemma_line_end, lines_of, owned, push_char, string_of,
    strip_cr, trim, trim_chars,
};

verus! {

/// `s` with every `'` doubled, as a PowerShell single-quoted string needs.
pub open spec fn escape_quotes(s: Seq<char>) -> Seq<char>
    decreases s.len(),
{
    if s.len() == 0 {
        Seq::empty()
    } else {
        escape_quotes(s.drop_last()) + if s.last() == '\'' {
            seq!['\'', '\'']
        } else {
            seq![s.last()]
        }
    }
}

fn escaped(s: &str) -> (r: String)
    ensures
        r@ == escape_quotes(s@),
{
    let c = chars_of(s);
    let mut r = String::new();
    let mut i: usize = 0;
    while i < c.len()
        invariant
            i <= c.len(),
            c@ == s@,
            r@ == escape_quotes(c@.subrange(0, i as int)),
        decreases c.len() - i,
    {
        proof {
            let p = c@.subrange(0, i + 1);
            assert(p.drop_last() =~= c@.subrange(0, i as int));
            assert(p.last() == c@[i as int]);
        }
        let ghost before = r@;
        push_char(&mut r, c[i]);
        if c[i] == '\'' {
            push_char(&mut r, '\'');
        }
        assert(r@ =~= escape_quotes(c@.subrange(0, i + 1)));
        i = i + 1;
    }
    assert(c@.subrange(0, c.len() as int) =~= c@);
    r
}

/// The PowerShell arguments that mount `iso` and print its drive letter.
pub open spec fn mount_args(iso: Seq<char>) -> Seq<Seq<char>> {
    seq![
        "-NoProfile"@,
        "-Command"@,
        "try { (Mount-DiskImage -ImagePath '"@ + escape_quotes(iso)
            + "' -PassThru | Get-Volume).DriveLetter } catch { '' }"@,
    ]
}

/// The PowerShell arguments that dismount `iso`.
pub open spec fn dismount_args(iso: Seq<char>) -> Seq<Seq<char>> {
    seq![
        "-NoProfile"@,
        "-Command"@,
        "Dismount-DiskImage -ImagePath '"@ + escape_quotes(iso) + "' -ErrorAction SilentlyContinue"@,
    ]
}

/// The `powershell` arguments that mount the ISO image and print the drive
/// letter it got.
pub fn mount_iso(iso: &str) -> (v: Vec<String>)
    ensures
        strings(v@) == mount_args(iso@),
{
    let e = escaped(iso);
    let ps = join3(
        "try { (Mount-DiskImage -ImagePath '",
        e.as_str(),
        "' -PassThru | Get-Volume).DriveLetter } catch { '' }",
    );
    let mut v: Vec<String> = Vec::new();
    v.push(owned("-NoProfile"));
    v.push(owned("-Command"));
    v.push(ps);
    assert(strings(v@) =~= mount_args(iso@));
    v
}

/// The `powershell` arguments that dismount the ISO image.
pub fn dismount_iso(iso: &str) -> (v: Vec<String>)
    ensures
        strings(v@) == dismount_args(iso@),
{
    let e = escaped(iso);
    let ps = join3("Dismount-DiskImage -ImagePath '", e.as_str(), "' -ErrorAction SilentlyContinue");
    let mut v: Vec<String> = Vec::new();
    v.push(owned("-NoProfile"));
    v.push(owned("-Command"));
    v.push(ps);
    assert(strings(v@) =~= dismount_args(iso@));
    v
}

/// The last line of `ls` that is not blank, trimmed (empty when all are).
pub open spec fn last_nonblank(ls: Seq<Seq<char>>) -> Seq<char>
    decreases ls.len(),
{
    if ls.len() == 0 {
        Seq::empty()
    } else {
        let r = last_nonblank(ls.drop_first());
        if r.len() > 0 {
            r
        } else {
            trim(ls[0])
        }
    }
}

/// `s` without trailing `:` characters.
pub open spec fn strip_colons(s: Seq<char>) -> Seq<char>
    decreases s.len(),
{
    if s.len() > 0 && s.last() == ':' {
        strip_colons(s.drop_last())
    } else {
        s
    }
}

/// The drive letter in the mount command's output: its last non-blank
/// line, trimmed, without trailing colons (empty when there is none).
pub open spec fn drive_of(out: Seq<char>) -> Seq<char> {
    strip_colons(last_nonblank(lines_of(out)))
}

/// The drive letter in the mount command's output (see `drive_of`).
pub fn drive_letter(out: &str) -> (d: String)
    ensures
        d@ == drive_of(out@),
{
    let s = chars_of(out);
    let n = s.len();
    let mut best: Vec<char> = Vec::new();
    let mut i: usize = 0;
    assert(s@.subrange(0, n as int) =~= s@);
    while i < n
        invariant
            i <= n,
            n == s@.len(),
            s@ == out@,
            last_nonblank(lines_of(out@)) == (if last_nonblank(
                lines_of(s@.subrange(i as int, n as int)),
            ).len() > 0 {
                last_nonblank(lines_of(s@.subrange(i as int, n as int)))
            } else {
                best@
            }),
        decreases n - i,
    {
        let ghost rest = s@.subrange(i as int, n as int);
        let mut j = i;
        while j < n && s[j] != '\n'
            invariant
                i <= j <= n,
                n == s@.len(),
                forall|k: int| i <= k < j ==> s@[k] != '\n',
            decreases n - j,
        {
            j = j + 1;
        }
        proof {
            lemma_line_end(rest);
            assert(line_end(rest) == j - i) by {
                let m = line_end(rest);
                if m < j - i {
                    assert(rest[m] == s@[i + m]);
                } else if m > j - i {
                    assert(rest[j - i] == s@[j as int]);
                }
            }
        }
        let mut line: Vec<char> = Vec::new();
        let mut k = i;
        while k < j
            invariant
                i <= k <= j <= n,
                n == s@.len(),
                line@ == s@.subrange(i as int, k as int),
            decreases j - k,
        {
            line.push(s[k]);
            k = k + 1;
        }
        if j < n && line.len() > 0 && line[line.len() - 1] == '\r' {
            line.pop();
        }
        let t = trim_chars(&line);
        let ghost next = if j == n {
            Seq::<char>::empty()
        } else {
            s@.subrange(j + 1, n as int)
        };
        proof {
            let ls = lines_of(rest);
            assert(rest.subrange(0, j - i) =~= s@.subrange(i as int, j as int));
            if j == n {
                assert(rest =~= s@.subrange(i as int, j as int));
                assert(ls =~= seq![rest]);
                assert(ls.drop_first() =~= Seq::<Seq<char>>::empty());
                assert(lines_of(next) =~= Seq::<Seq<char>>::empty());
            } else {
                assert(line@ == strip_cr(s@.subrange(i as int, j as int)));
                assert(rest.subrange(j - i + 1, rest.len() as int) =~= next);
                assert(ls.drop_first() =~= lines_of(next));
            }
            assert(ls[0] == line@);
        }
        if t.len() > 0 {
            best = t;
        }
        proof {
            assert(last_nonblank(Seq::<Seq<char>>::empty()).len() == 0);
        }
        if j == n {
            i = n;
            assert(s@.subrange(i as int, n as int) =~= Seq::<char>::empty());
        } else {
            i = j + 1;
            assert(s@.subrange(i as int, n as int) =~= next);
        }
    }
    proof {
        if i >= n {
            assert(s@.subrange(i as int, n as int) =~= Seq::<char>::empty());
        }
    }
    let mut m = best.len();
    assert(best@.subrange(0, best.len() as int) =~= best@);
    while m > 0 && best[m - 1] == ':'
        invariant
            m <= best.len(),
            strip_colons(best@) == strip_colons(best@.subrange(0, m as int)),
        decreases m,
    {
        proof {
            let p = best@.subrange(0, m as int);
            assert(p.drop_last() =~= best@.subrange(0, m - 1));
        }
        m = m - 1;
    }
    let mut r: Vec<char> = Vec::new();
    let mut q: usize = 0;
    while q < m
        invariant
            q <= m <= best.len(),
            r@ == best@.subrange(0, q as int),
        decreases m - q,
    {
        r.push(best[q]);
        q = q + 1;
    }
    string_of(&r)
}

/// What the program must do next for the ISO repair.
pub enum IsoCmd {
    /// Run `powershell` with these arguments and report its standard output
    /// (`IsoEvent::Output`).
    Capture(Vec<String>),
    /// Report whether this file exists (`IsoEvent::Flag`).
    IsFile(String),
    /// Run `dism` with these arguments, streaming its output to the console
    /// (`IsoEvent::Done`).
    Stream(Vec<String>),
    /// The job is over.
    Finish,
}

/// The outcome of the last command.
pub enum IsoEvent {
    Start,
    Output(Vec<u8>),
    Flag(bool),
    Done,
}

/// The mathematical value of a command.
pub ghost enum IsoCmdV {
    Capture(Seq<Seq<char>>),
    IsFile(Seq<char>),
    Stream(Seq<Seq<char>>),
    Finish,
}

impl View for IsoCmd {
    type V = IsoCmdV;

    open spec fn view(&self) -> IsoCmdV {
        match self {
            IsoCmd::Capture(a) => IsoCmdV::Capture(strings(a@)),
            IsoCmd::IsFile(p) => IsoCmdV::IsFile(p@),
            IsoCmd::Stream(a) => IsoCmdV::Stream(strings(a@)),
            IsoCmd::Finish => IsoCmdV::Finish,
        }
    }
}

/// Where the ISO repair stands.
pub enum IsoStage {
    Start,
    Mounting,
    /// Checking for `install.wim` on the drive.
    CheckWim(String),
    /// Checking for `install.esd` on the drive.
    CheckEsd(String),
    Repairing,
    Dismounting,
    Over,
}

/// The mathematical value of a stage.
pub ghost enum IsoStageV {
    Start,
    Mounting,
    CheckWim(Seq<char>),
    CheckEsd(Seq<char>),
    Repairing,
    Dismounting,
    Over,
}

impl View for IsoStage {
    type V = IsoStageV;

    open spec fn view(&self) -> IsoStageV {
        match self {
            IsoStage::Start => IsoStageV::Start,
            IsoStage::Mounting => IsoStageV::Mounting,
            IsoStage::CheckWim(d) => IsoStageV::CheckWim(d@),
            IsoStage::CheckEsd(d) => IsoStageV::CheckEsd(d@),
            IsoStage::Repairing => IsoStageV::Repairing,
            IsoStage::Dismounting => IsoStageV::Dismounting,
            IsoStage::Over => IsoStageV::Over,
        }
    }
}

/// The ISO repair: the image and the stage.
pub struct RestoreIso {
    pub iso: String,
    pub stage: IsoStage,
}

/// The image file on drive `drv`.
pub open spec fn image_path(drv: Seq<char>, file: Seq<char>) -> Seq<char> {
    drv + ":\\sources\\"@ + file
}

/// The DISM arguments that repair from image `file` on drive `drv`.
pub open spec fn repair_args(drv: Seq<char>, file: Seq<char>) -> Seq<Seq<char>> {
    seq![
        "/online"@,
        "/cleanup-image"@,
        "/restorehealth"@,
        "/source:"@ + image_path(drv, file),
        "/limitaccess"@,
    ]
}

/// One step of the ISO repair: given the stage and the outcome of the last
/// command, the next stage, command and lines. An event that does not fit
/// the stage ends the job.
pub open spec fn iso_step(en: bool, iso: Seq<char>, stage: IsoStageV, ev: IsoEvent) -> (
    IsoStageV,
    IsoCmdV,
    Seq<LineView>,
) {
    match stage {
        IsoStageV::Start => (
            IsoStageV::Mounting,
            IsoCmdV::Capture(mount_args(iso)),
            header_lines("RestoreHealth + ISO"@) + seq![text(LineKind::Dim, "ISO: "@ + iso)],
        ),
        IsoStageV::Mounting => match ev {
            IsoEvent::Output(o) => {
                let drv = drive_of(decoded(o@));
                if drv.len() == 0 {
                    (
                        IsoStageV::Over,
                        IsoCmdV::Finish,
                        seq![text(LineKind::Failure, lang(en, "ISO mount edilemedi."@, "Could not mount ISO."@))],
                    )
                } else {
                    (
                        IsoStageV::CheckWim(drv),
                        IsoCmdV::IsFile(image_path(drv, "install.wim"@)),
                        Seq::empty(),
                    )
                }
            },
            _ => (IsoStageV::Over, IsoCmdV::Finish, Seq::empty()),
        },
        IsoStageV::CheckWim(drv) => match ev {
            IsoEvent::Flag(found) => if found {
                (IsoStageV::Repairing, IsoCmdV::Stream(repair_args(drv, "install.wim"@)), Seq::empty())
            } else {
                (
                    IsoStageV::CheckEsd(drv),
                    IsoCmdV::IsFile(image_path(drv, "install.esd"@)),
                    Seq::empty(),
                )
            },
            _ => (IsoStageV::Over, IsoCmdV::Finish, Seq::empty()),
        },
        IsoStageV::CheckEsd(drv) => match ev {
            IsoEvent::Flag(found) => if found {
                (IsoStageV::Repairing, IsoCmdV::Stream(repair_args(drv, "install.esd"@)), Seq::empty())
            } else {
                (
                    IsoStageV::Dismounting,
                    IsoCmdV::Capture(dismount_args(iso)),
                    seq![
                        text(
                            LineKind::Failure,
                            lang(
                                en,
                                "ISO içinde install.wim / install.esd bulunamadı."@,
                                "install.wim / install.esd not found in ISO."@,
                            ),
                        ),
                    ],
                )
            },
            _ => (IsoStageV::Over, IsoCmdV::Finish, Seq::empty()),
        },
        IsoStageV::Repairing => match ev {
            IsoEvent::Done => (IsoStageV::Dismounting, IsoCmdV::Capture(dismount_args(iso)), Seq::empty()),
            _ => (IsoStageV::Over, IsoCmdV::Finish, Seq::empty()),
        },
        IsoStageV::Dismounting => match ev {
            IsoEvent::Output(_) => (
                IsoStageV::Over,
                IsoCmdV::Finish,
                seq![text(LineKind::Success, lang(en, "ISO onarımı tamamlandı."@, "ISO repair finished."@))],
            ),
            _ => (IsoStageV::Over, IsoCmdV::Finish, Seq::empty()),
        },
        IsoStageV::Over => (IsoStageV::Over, IsoCmdV::Finish, Seq::empty()),
    }
}

fn image_of(drv: &str, file: &str) -> (s: String)
    ensures
        s@ == image_path(drv@, file@),
{
    join3(drv, ":\\sources\\", file)
}

fn repair_cmd(drv: &str, file: &str) -> (v: Vec<String>)
    ensures
        strings(v@) == repair_args(drv@, file@),
{
    let img = image_of(drv, file);
    let src = join2("/source:", img.as_str());
    let mut v: Vec<String> = Vec::new();
    v.push(owned("/online"));
    v.push(owned("/cleanup-image"));
    v.push(owned("/restorehealth"));
    v.push(src);
    v.push(owned("/limitaccess"));
    assert(strings(v@) =~= repair_args(drv@, file@));
    v
}

/// Starts the ISO repair for the image at `iso`.
pub fn restore_iso(iso: &str) -> (j: RestoreIso)
    ensures
        j.iso@ == iso@,
        j.stage@ == IsoStageV::Start,
{
    RestoreIso { iso: owned(iso), stage: IsoStage::Start }
}

impl RestoreIso {
    /// Takes the outcome of the last command (`Start` at first) and says
    /// what to do next, writing the job's lines (see `iso_step`).
    pub fn step(&mut self, bus: &mut Con, en: bool, ev: IsoEvent) -> (cmd: IsoCmd)
        ensures
            ({
                let (st, c, ls) = iso_step(en, old(self).iso@, old(self).stage@, ev);
                &&& final(self).stage@ == st
                &&& cmd@ == c
                &&& final(bus)@ == old(bus)@ + ls
            }),
            final(self).iso == old(self).iso,
    {
        let ghost start = bus@;
        let mut stage = IsoStage::Over;
        std::mem::swap(&mut stage, &mut self.stage);
        match stage {
            IsoStage::Start => {
                bus.header("RestoreHealth + ISO");
                let l = join2("ISO: ", self.iso.as_str());
                bus.dim(l.as_str());
                self.stage = IsoStage::Mounting;
                assert(bus@ =~= start + (header_lines("RestoreHealth + ISO"@) + seq![text(LineKind::Dim, "ISO: "@ + self.iso@)]));
                IsoCmd::Capture(mount_iso(self.iso.as_str()))
            },
            IsoStage::Mounting => {
                match ev {
                    IsoEvent::Output(o) => {
                        let out = decode(o.as_slice());
                        let drv = drive_letter(out.as_str());
                        if drv.as_str().is_empty() {
                            bus.err(tr(en, "ISO mount edilemedi.", "Could not mount ISO."));
                            assert(bus@ =~= start + seq![text(LineKind::Failure, lang(en, "ISO mount edilemedi."@, "Could not mount ISO."@))]);
                            IsoCmd::Finish
                        } else {
                            let p = image_of(drv.as_str(), "install.wim");
                            self.stage = IsoStage::CheckWim(drv);
                            assert(bus@ =~= start + Seq::<LineView>::empty());
                            IsoCmd::IsFile(p)
                        }
                    },
                    _ => {
                        assert(bus@ =~= start + Seq::<LineView>::empty());
                        IsoCmd::Finish
                    },
                }
            },
            IsoStage::CheckWim(drv) => {
                assert(bus@ =~= start + Seq::<LineView>::empty());
                match ev {
                    IsoEvent::Flag(found) => {
                        if found {
                            self.stage = IsoStage::Repairing;
                            IsoCmd::Stream(repair_cmd(drv.as_str(), "install.wim"))
                        } else {
                            let p = image_of(drv.as_str(), "install.esd");
                            self.stage = IsoStage::CheckEsd(drv);
                            IsoCmd::IsFile(p)
                        }
                    },
                    _ => IsoCmd::Finish,
                }
            },
            IsoStage::CheckEsd(drv) => {
                match ev {
                    IsoEvent::Flag(found) => {
                        if found {
                            self.stage = IsoStage::Repairing;
                            assert(bus@ =~= start + Seq::<LineView>::empty());
                            IsoCmd::Stream(repair_cmd(drv.as_str(), "install.esd"))
                        } else {
                            bus.err(
                                tr(
                                    en,
                                    "ISO içinde install.wim / install.esd bulunamadı.",
                                    "install.wim / install.esd not found in ISO.",
                                ),
                            );
                            self.stage = IsoStage::Dismounting;
                            IsoCmd::Capture(dismount_iso(self.iso.as_str()))
                        }
                    },
                    _ => {
                        assert(bus@ =~= start + Seq::<LineView>::empty());
                        IsoCmd::Finish
                    },
                }
            },
            IsoStage::Repairing => {
                assert(bus@ =~= start + Seq::<LineView>::empty());
                match ev {
                    IsoEvent::Done => {
                        self.stage = IsoStage::Dismounting;
                        IsoCmd::Capture(dismount_iso(self.iso.as_str()))
                    },
                    _ => IsoCmd::Finish,
                }
            },
            IsoStage::Dismounting => {
                match ev {
                    IsoEvent::Output(_) => {
                        bus.ok(tr(en, "ISO onarımı tamamlandı.", "ISO repair finished."));
                        IsoCmd::Finish
                    },
                    _ => {
                        assert(bus@ =~= start + Seq::<LineView>::empty());
                        IsoCmd::Finish
                    },
                }
            },
            IsoStage::Over => {
                assert(bus@ =~= start + Seq::<LineView>::empty());
                IsoCmd::Finish
            },
        }
    }
}

} // verus!
