use vstd::prelude::*;

verus! {

/// True when `pat` occurs in `data` as a contiguous subsequence.
pub open spec fn contains_seq(data: Seq<u8>, pat: Seq<u8>) -> bool {
    exists|i: int|
        0 <= i && i + pat.len() <= data.len() && #[trigger] data.subrange(i, i + pat.len()) == pat
}

/// The flag value after scanning `data` front to back: each occurrence of
/// `on` sets it, each occurrence of `off` clears it, and the last occurrence
/// wins. `on` and `off` must have the same length.
pub open spec fn scan_flag(data: Seq<u8>, on: Seq<u8>, off: Seq<u8>, cur: bool) -> bool
    decreases data.len(),
{
    if data.len() < on.len() || on.len() == 0 {
        cur
    } else {
        let upd = if data.take(on.len() as int) == on {
            true
        } else if data.take(off.len() as int) == off {
            false
        } else {
            cur
        };
        scan_flag(data.skip(1), on, off, upd)
    }
}

/// `ESC [ ? 1 h` — DECCKM set (application cursor keys on).
pub open spec fn app_cursor_on_seq() -> Seq<u8> {
    seq![0x1bu8, 0x5bu8, 0x3fu8, 0x31u8, 0x68u8]
}

/// `ESC [ ? 1 l` — DECCKM reset (application cursor keys off).
pub open spec fn app_cursor_off_seq() -> Seq<u8> {
    seq![0x1bu8, 0x5bu8, 0x3fu8, 0x31u8, 0x6cu8]
}

/// `ESC [ ? 2 5 h` — DECTCEM set (cursor visible).
pub open spec fn cursor_show_seq() -> Seq<u8> {
    seq![0x1bu8, 0x5bu8, 0x3fu8, 0x32u8, 0x35u8, 0x68u8]
}

/// `ESC [ ? 2 5 l` — DECTCEM reset (cursor hidden).
pub open spec fn cursor_hide_seq() -> Seq<u8> {
    seq![0x1bu8, 0x5bu8, 0x3fu8, 0x32u8, 0x35u8, 0x6cu8]
}

/// `ESC [ ? 1 0 0 <digit> <h|l>` — a mouse-tracking mode change. The digit is
/// the last of 1000, 1002, 1003 or 1006; the suffix is `h` (set) or `l`
/// (reset).
pub open spec fn mouse_mode_seq(digit: u8, suffix: u8) -> Seq<u8> {
    seq![0x1bu8, 0x5bu8, 0x3fu8, 0x31u8, 0x30u8, 0x30u8, digit, suffix]
}

/// Whether `data` holds any of the four mouse-tracking sequences with the
/// given terminator.
pub open spec fn contains_mouse_seq(data: Seq<u8>, suffix: u8) -> bool {
    ||| contains_seq(data, mouse_mode_seq(0x30, suffix))
    ||| contains_seq(data, mouse_mode_seq(0x32, suffix))
    ||| contains_seq(data, mouse_mode_seq(0x33, suffix))
    ||| contains_seq(data, mouse_mode_seq(0x36, suffix))
}

/// The mouse-tracking flag after scanning `data`: any disable sequence turns
/// it off, otherwise any enable sequence turns it on, otherwise it is
/// unchanged.
pub open spec fn mouse_mode_after(data: Seq<u8>, cur: bool) -> bool {
    if contains_mouse_seq(data, 0x6c) {
        false
    } else if contains_mouse_seq(data, 0x68) {
        true
    } else {
        cur
    }
}

/// True when `data[i..]` starts with `pat`.
fn starts_with_at(data: &[u8], i: usize, pat: &[u8]) -> (r: bool)
    requires
        i + pat@.len() <= data@.len(),
    ensures
        r == (data@.subrange(i as int, i as int + pat@.len() as int) == pat@),
{
    let n = data.len();
    let mut j: usize = 0;
    while j < pat.len()
        invariant
            n == data@.len(),
            i + pat@.len() <= data@.len(),
            j <= pat@.len(),
            forall|k: int| 0 <= k < j ==> data@[i + k] == pat@[k],
        decreases pat@.len() - j,
    {
        if data[i + j] != pat[j] {
            proof {
                assert(data@.subrange(i as int, i as int + pat@.len() as int)[j as int] != pat@[j as int]);
            }
            return false;
        }
        j = j + 1;
    }
    proof {
        assert(data@.subrange(i as int, i as int + pat@.len() as int) =~= pat@);
    }
    true
}

/// True when `pat` occurs anywhere in `data`.
fn contains_sub(data: &[u8], pat: &[u8]) -> (r: bool)
    requires
        pat@.len() >= 1,
    ensures
        r == contains_seq(data@, pat@),
{
    let n = data.len();
    if n < pat.len() {
        return false;
    }
    let end = n - pat.len();
    let mut i: usize = 0;
    while i <= end
        invariant
            n == data@.len(),
            pat@.len() >= 1,
            end + pat@.len() == n,
            i <= end + 1,
            forall|k: int|
                0 <= k < i ==> #[trigger] data@.subrange(k, k + pat@.len() as int) != pat@,
        decreases end + 1 - i,
    {
        if starts_with_at(data, i, pat) {
            return true;
        }
        i = i + 1;
    }
    false
}

/// Generic flag scanner: the exec counterpart of [`scan_flag`].
fn scan_flag_bytes(data: &[u8], on: &[u8], off: &[u8], cur: bool) -> (r: bool)
    requires
        on@.len() == off@.len(),
        on@.len() >= 1,
    ensures
        r == scan_flag(data@, on@, off@, cur),
{
    let n = data.len();
    let plen = on.len();
    if n < plen {
        return cur;
    }
    let end = n - plen;
    let mut i: usize = 0;
    let mut state = cur;
    proof {
        assert(data@.skip(0) =~= data@);
    }
    while i <= end
        invariant
            n == data@.len(),
            end + plen == n,
            plen == on@.len() == off@.len(),
            plen >= 1,
            i <= end + 1,
            scan_flag(data@, on@, off@, cur) == scan_flag(data@.skip(i as int), on@, off@, state),
        decreases end + 1 - i,
    {
        proof {
            assert(data@.skip(i as int).take(plen as int) =~= data@.subrange(
                i as int,
                i as int + plen as int,
            ));
            assert(data@.skip(i as int).skip(1) =~= data@.skip(i as int + 1));
        }
        if starts_with_at(data, i, on) {
            state = true;
        } else if starts_with_at(data, i, off) {
            state = false;
        }
        i = i + 1;
    }
    proof {
        assert(data@.skip(i as int).len() < plen);
    }
    state
}

fn app_cursor_on_bytes() -> (r: Vec<u8>)
    ensures
        r@ == app_cursor_on_seq(),
{
    let mut r: Vec<u8> = Vec::new();
    r.push(0x1b);
    r.push(0x5b);
    r.push(0x3f);
    r.push(0x31);
    r.push(0x68);
    proof {
        assert(r@ =~= app_cursor_on_seq());
    }
    r
}

fn app_cursor_off_bytes() -> (r: Vec<u8>)
    ensures
        r@ == app_cursor_off_seq(),
{
    let mut r: Vec<u8> = Vec::new();
    r.push(0x1b);
    r.push(0x5b);
    r.push(0x3f);
    r.push(0x31);
    r.push(0x6c);
    proof {
        assert(r@ =~= app_cursor_off_seq());
    }
    r
}

fn cursor_show_bytes() -> (r: Vec<u8>)
    ensures
        r@ == cursor_show_seq(),
{
    let mut r: Vec<u8> = Vec::new();
    r.push(0x1b);
    r.push(0x5b);
    r.push(0x3f);
    r.push(0x32);
    r.push(0x35);
    r.push(0x68);
    proof {
        assert(r@ =~= cursor_show_seq());
    }
    r
}

fn cursor_hide_bytes() -> (r: Vec<u8>)
    ensures
        r@ == cursor_hide_seq(),
{
    let mut r: Vec<u8> = Vec::new();
    r.push(0x1b);
    r.push(0x5b);
    r.push(0x3f);
    r.push(0x32);
    r.push(0x35);
    r.push(0x6c);
    proof {
        assert(r@ =~= cursor_hide_seq());
    }
    r
}

fn mouse_mode_bytes(digit: u8, suffix: u8) -> (r: Vec<u8>)
    ensures
        r@ == mouse_mode_seq(digit, suffix),
{
    let mut r: Vec<u8> = Vec::new();
    r.push(0x1b);
    r.push(0x5b);
    r.push(0x3f);
    r.push(0x31);
    r.push(0x30);
    r.push(0x30);
    r.push(digit);
    r.push(suffix);
    proof {
        assert(r@ =~= mouse_mode_seq(digit, suffix));
    }
    r
}

/// Detect DECCKM changes (`ESC [ ? 1 h` / `ESC [ ? 1 l`) in freshly received
/// output and update the application-cursor flag; the last change in the
/// chunk wins.
pub fn detect_app_cursor_mode(data: &[u8], app_cursor: &mut bool)
    ensures
        *final(app_cursor) == scan_flag(data@, app_cursor_on_seq(), app_cursor_off_seq(), *old(
            app_cursor,
        )),
{
    let on = app_cursor_on_bytes();
    let off = app_cursor_off_bytes();
    *app_cursor = scan_flag_bytes(data, on.as_slice(), off.as_slice(), *app_cursor);
}

/// Detect DECTCEM changes (`ESC [ ? 2 5 h` / `ESC [ ? 2 5 l`) in freshly
/// received output and update the cursor-visibility flag; the last change in
/// the chunk wins.
pub fn detect_cursor_visible(data: &[u8], visible: &mut bool)
    ensures
        *final(visible) == scan_flag(data@, cursor_show_seq(), cursor_hide_seq(), *old(visible)),
{
    let on = cursor_show_bytes();
    let off = cursor_hide_bytes();
    *visible = scan_flag_bytes(data, on.as_slice(), off.as_slice(), *visible);
}

/// Detect mouse-tracking changes in freshly received output: any of the
/// 1000/1002/1003/1006 disable sequences clears the flag; otherwise any of
/// the enable sequences sets it; otherwise it is left unchanged.
pub fn detect_mouse_mode(data: &[u8], mouse_mode: &mut bool)
    ensures
        *final(mouse_mode) == mouse_mode_after(data@, *old(mouse_mode)),
{
    let digits: [u8; 4] = [0x30, 0x32, 0x33, 0x36];
    let mut any_off = false;
    let mut any_on = false;
    let mut k: usize = 0;
    while k < 4
        invariant
            k <= 4,
            any_off == exists|j: int|
                0 <= j < k && contains_seq(data@, mouse_mode_seq(digits@[j], 0x6c)),
            any_on == exists|j: int|
                0 <= j < k && contains_seq(data@, mouse_mode_seq(digits@[j], 0x68)),
            digits@ =~= seq![0x30u8, 0x32u8, 0x33u8, 0x36u8],
        decreases 4 - k,
    {
        let off_pat = mouse_mode_bytes(digits[k], 0x6c);
        if contains_sub(data, off_pat.as_slice()) {
            any_off = true;
        }
        let on_pat = mouse_mode_bytes(digits[k], 0x68);
        if contains_sub(data, on_pat.as_slice()) {
            any_on = true;
        }
        k = k + 1;
    }
    proof {
        assert(any_off == contains_mouse_seq(data@, 0x6c)) by {
            assert(digits@[0] == 0x30 && digits@[1] == 0x32 && digits@[2] == 0x33 && digits@[3]
                == 0x36);
        }
        assert(any_on == contains_mouse_seq(data@, 0x68)) by {
            assert(digits@[0] == 0x30 && digits@[1] == 0x32 && digits@[2] == 0x33 && digits@[3]
                == 0x36);
        }
    }
    if any_off {
        *mouse_mode = false;
    } else if any_on {
        *mouse_mode = true;
    }
}

} // verus!
