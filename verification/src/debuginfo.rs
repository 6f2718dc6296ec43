//! Heap growth since a starting point: the program break then and now.
use vstd::prelude::*;

use crate::textbuffer::chars::{is_digit, spec_is_digit};
use crate::textbuffer::parse::{parse_usize, parsed_usize};
use crate::textbuffer::strings::{chars_of, string_from_chars};

verus! {

/// The program break when measuring began, and the last one read.
#[derive(Debug)]
pub struct DebugInfo {
    heap_address_at_main: usize,
    current_heap_address: Option<usize>,
}

/// Resource usage of the process, as the system reports it.
#[derive(Debug)]
pub struct ProcessInfo {
    pub name: String,
    /// process id
    pub pid: usize,
    /// virtual memory usage, peak
    pub virtual_mem_usage_peak: usize,
    /// virtual memory usage
    pub virtual_mem_usage: usize,
    /// Resident set size
    pub rss: usize,
    /// shared library code size
    pub shared_lib_code: usize,
}

impl DebugInfo {
    pub closed spec fn start(&self) -> usize {
        self.heap_address_at_main
    }

    pub closed spec fn current(&self) -> Option<usize> {
        self.current_heap_address
    }

    /// The program break when measuring began.
    pub fn heap_address_at_start(&self) -> (r: usize)
        ensures
            r == self.start(),
    {
        self.heap_address_at_main
    }

    /// Measures from `heap_address_at_main` on; nothing read since.
    pub fn new(heap_address_at_main: usize) -> (r: DebugInfo)
        ensures
            r.start() == heap_address_at_main,
            r.current() is None,
    {
        DebugInfo { heap_address_at_main, current_heap_address: None }
    }

    /// Measures from the program break `initial_heap_address`, read just now.
    pub fn begin_at(initial_heap_address: usize) -> (r: DebugInfo)
        ensures
            r.start() == initial_heap_address,
            r.current() == Some(initial_heap_address),
    {
        DebugInfo { heap_address_at_main: initial_heap_address, current_heap_address: Some(initial_heap_address) }
    }

    /// Records the program break just read and returns how far the heap has
    /// grown since the start.
    pub fn heap_increase_since_start(&mut self, current_heap_address: usize) -> (r: usize)
        requires
            old(self).start() <= current_heap_address,
        ensures
            final(self).current() == Some(current_heap_address),
            final(self).start() == old(self).start(),
            r == current_heap_address - old(self).start(),
    {
        self.current_heap_address = Some(current_heap_address);
        let current = match self.current_heap_address {
            Some(c) => c,
            None => self.heap_address_at_main,
        };
        current - self.heap_address_at_main
    }
}

/// Why the process information could not be read.
#[derive(Debug, Clone, Copy, PartialEq, Eq, Structural)]
pub enum ProcessInfoError {
    /// The process id in the status text is not a number
    InvalidInput,
}

/// The decimal digits of a line, in order.
pub open spec fn digits_of(s: Seq<char>) -> Seq<char> {
    s.filter(|c: char| spec_is_digit(c))
}

/// The number the digits of a line write, if they write one.
pub open spec fn line_number(s: Seq<char>) -> Option<usize> {
    parsed_usize(digits_of(s))
}

/// The characters of `s` after the first `k`.
pub open spec fn after(s: Seq<char>, k: int) -> Seq<char> {
    if s.len() <= k {
        Seq::<char>::empty()
    } else {
        s.subrange(k, s.len() as int)
    }
}

/// Whether the lines of the status and of the memory summary can be read as
/// `ProcessInfo::from_lines` reads them: the memory summary's second line and,
/// when the process id is a number, the status lines with the memory sizes
/// hold numbers.
pub open spec fn process_lines_readable(status: Seq<String>, smaps_rollup: Seq<String>) -> bool {
    &&& smaps_rollup.len() >= 2
    &&& line_number(smaps_rollup[1]@) is Some
    &&& status.len() >= 6
    &&& line_number(status[5]@) is Some ==> {
        &&& status.len() >= 29
        &&& line_number(status[16]@) is Some
        &&& line_number(status[17]@) is Some
        &&& line_number(status[28]@) is Some
    }
}

fn digits_in(s: &String) -> (r: Vec<char>)
    ensures
        r@ == digits_of(s@),
{
    let all = chars_of(s.as_str());
    let mut v: Vec<char> = Vec::new();
    let mut i: usize = 0;
    while i < all.len()
        invariant
            i <= all@.len(),
            all@ == s@,
            v@ == digits_of(s@.subrange(0, i as int)),
        decreases all@.len() - i,
    {
        proof {
            reveal(Seq::filter);
            let t = s@.subrange(0, i + 1);
            assert(t.drop_last() =~= s@.subrange(0, i as int));
            assert(t.last() == all@[i as int]);
        }
        if is_digit(all[i]) {
            v.push(all[i]);
        }
        i = i + 1;
    }
    proof {
        assert(s@.subrange(0, all@.len() as int) =~= s@);
    }
    v
}

fn number_in(s: &String) -> (r: Option<usize>)
    ensures
        r == line_number(s@),
{
    let d = digits_in(s);
    parse_usize(d.as_slice())
}

impl ProcessInfo {
    /// Whether `from_lines` can read these lines.
    pub fn lines_readable(status: &Vec<String>, smaps_rollup: &Vec<String>) -> (r: bool)
        ensures
            r == process_lines_readable(status@, smaps_rollup@),
    {
        if smaps_rollup.len() < 2 || number_in(&smaps_rollup[1]).is_none() || status.len() < 6 {
            return false;
        }
        if number_in(&status[5]).is_none() {
            return true;
        }
        status.len() >= 29 && number_in(&status[16]).is_some() && number_in(&status[17]).is_some()
            && number_in(&status[28]).is_some()
    }

    /// Reads the process information from the lines of the process's status
    /// (name on the first line, then the process id, peak and current virtual
    /// memory and shared library code on lines 5, 16, 17 and 28, by their
    /// digits) and of its memory summary (resident set size on the second line).
    pub fn from_lines(status: &Vec<String>, smaps_rollup: &Vec<String>) -> (r: Result<ProcessInfo, ProcessInfoError>)
        requires
            process_lines_readable(status@, smaps_rollup@),
        ensures
            match line_number(status@[5]@) {
                Some(pid) => r matches Ok(p) && {
                    &&& p.name@ == after(status@[0]@, 6)
                    &&& p.pid == pid
                    &&& Some(p.virtual_mem_usage_peak) == line_number(status@[16]@)
                    &&& Some(p.virtual_mem_usage) == line_number(status@[17]@)
                    &&& Some(p.rss) == line_number(smaps_rollup@[1]@)
                    &&& Some(p.shared_lib_code) == line_number(status@[28]@)
                },
                None => r == Err::<ProcessInfo, ProcessInfoError>(ProcessInfoError::InvalidInput),
            },
    {
        let rss = match number_in(&smaps_rollup[1]) {
            Some(v) => v,
            None => 0,
        };
        let first = chars_of(status[0].as_str());
        let mut name_chars: Vec<char> = Vec::new();
        let mut i: usize = 6;
        while i < first.len()
            invariant
                6 <= i <= first@.len() || (i == 6 && first@.len() < 6),
                name_chars@ == (if first@.len() <= 6 {
                    Seq::<char>::empty()
                } else {
                    first@.subrange(6, i as int)
                }),
            decreases first@.len() - i,
        {
            name_chars.push(first[i]);
            proof {
                assert(name_chars@ =~= first@.subrange(6, i + 1));
            }
            i = i + 1;
        }
        proof {
            if first@.len() > 6 {
                assert(first@.subrange(6, first@.len() as int) == name_chars@);
            }
            assert(name_chars@ =~= after(status@[0]@, 6));
        }
        let name = string_from_chars(name_chars.as_slice());
        let pid = match number_in(&status[5]) {
            Some(v) => v,
            None => {
                return Err(ProcessInfoError::InvalidInput);
            },
        };
        let peak = match number_in(&status[16]) {
            Some(v) => v,
            None => 0,
        };
        let current = match number_in(&status[17]) {
            Some(v) => v,
            None => 0,
        };
        let shared = match number_in(&status[28]) {
            Some(v) => v,
            None => 0,
        };
        Ok(ProcessInfo {
            name,
            pid,
            virtual_mem_usage_peak: peak,
            virtual_mem_usage: current,
            rss,
            shared_lib_code: shared,
        })
    }
}

} // verus!
