//! The peripheral capability interface the engine drives — display,
//! keypad and buzzer — together with a fully verified in-memory
//! implementation used as the test double.

use vstd::prelude::*;

verus! {

/// A display position: column then row, in pixels.
#[derive(Clone, Copy, Debug, PartialEq, Eq, Structural)]
pub struct Pixel {
    pub column: u8,
    pub row: u8,
}

/// Whether a display pixel is lit.
#[derive(Clone, Copy, Debug, PartialEq, Eq, Structural)]
pub enum PixelState {
    On,
    Off,
}

/// Whether a key is (or was observed) pressed.
#[derive(Clone, Copy, Debug, PartialEq, Eq, Structural)]
pub enum KeyState {
    On,
    Off,
}

/// One of the 16 keypad keys.
#[derive(Clone, Copy, Debug, PartialEq, Eq, Structural)]
pub struct KeypadNumber(pub u8);

/// How many keys the keypad has.
pub const KEYPAD_COUNT: u8 = 16;

/// Whether the buzzer is driven.
#[derive(Clone, Copy, Debug, PartialEq, Eq, Structural)]
pub enum BuzzerState {
    On,
    Off,
}

/// The capability the engine needs of its peripherals. The spec functions
/// are the abstract peripheral state; each operation says how it reads or
/// changes that state, and what it leaves alone. The display geometry is
/// fixed for the session. `block_for_any_keypress` is the one operation
/// that may suspend the calling tick; it promises nothing about the key
/// state it reports, so the engine is verified for every outcome.
pub trait Platform: Sized {
    /// The implementation's own well-formedness; every operation
    /// preserves it.
    spec fn inv(&self) -> bool;

    /// Display width in pixels, a session constant.
    spec fn display_width(&self) -> u8;

    /// Display height in pixels, a session constant.
    spec fn display_height(&self) -> u8;

    /// Whether the pixel at (column, row) is lit.
    spec fn pixel_on(&self, column: int, row: int) -> bool;

    /// Whether the given key is currently pressed.
    spec fn key_pressed(&self, key: int) -> bool;

    /// Whether the buzzer is currently driven.
    spec fn buzzer_on(&self) -> bool;

    fn get_display_width(&self) -> (r: u8)
        requires
            self.inv(),
        ensures
            r == self.display_width(),
            r > 0,
    ;

    fn get_display_height(&self) -> (r: u8)
        requires
            self.inv(),
        ensures
            r == self.display_height(),
            r > 0,
    ;

    fn clear_display(&mut self)
        requires
            old(self).inv(),
        ensures
            final(self).inv(),
            final(self).display_width() == old(self).display_width(),
            final(self).display_height() == old(self).display_height(),
            forall|c: int, r: int| !final(self).pixel_on(c, r),
            forall|k: int| #[trigger] final(self).key_pressed(k) == old(self).key_pressed(k),
            final(self).buzzer_on() == old(self).buzzer_on(),
    ;

    fn get_pixel(&self, pixel: Pixel) -> (r: PixelState)
        requires
            self.inv(),
            pixel.column < self.display_width(),
            pixel.row < self.display_height(),
        ensures
            r == (if self.pixel_on(pixel.column as int, pixel.row as int) {
                PixelState::On
            } else {
                PixelState::Off
            }),
    ;

    fn set_pixel(&mut self, pixel: Pixel, state: PixelState)
        requires
            old(self).inv(),
            pixel.column < old(self).display_width(),
            pixel.row < old(self).display_height(),
        ensures
            final(self).inv(),
            final(self).display_width() == old(self).display_width(),
            final(self).display_height() == old(self).display_height(),
            forall|c: int, r: int|
                #![trigger final(self).pixel_on(c, r)]
                #![trigger old(self).pixel_on(c, r)]
                final(self).pixel_on(c, r) == (if c == pixel.column as int
                    && r == pixel.row as int {
                    state is On
                } else {
                    old(self).pixel_on(c, r)
                }),
            forall|k: int| #[trigger] final(self).key_pressed(k) == old(self).key_pressed(k),
            final(self).buzzer_on() == old(self).buzzer_on(),
    ;

    /// Suspend until any key transition is observed and report it. The
    /// key state may move while the tick is suspended; display and
    /// buzzer may not. An implementation must resolve every wait that is
    /// pending when a key-state change occurs, and nothing is promised
    /// of the reported state: the engine is verified for either answer.
    fn block_for_any_keypress(&mut self) -> (r: KeyState)
        requires
            old(self).inv(),
        ensures
            final(self).inv(),
            final(self).display_width() == old(self).display_width(),
            final(self).display_height() == old(self).display_height(),
            forall|c: int, r: int| #[trigger] final(self).pixel_on(c, r) == old(self).pixel_on(
                c,
                r,
            ),
            final(self).buzzer_on() == old(self).buzzer_on(),
    ;

    fn read_keypress_state(&self, key: KeypadNumber) -> (r: KeyState)
        requires
            self.inv(),
        ensures
            r == (if self.key_pressed(key.0 as int) {
                KeyState::On
            } else {
                KeyState::Off
            }),
    ;

    fn set_buzzer(&mut self, state: BuzzerState)
        requires
            old(self).inv(),
        ensures
            final(self).inv(),
            final(self).display_width() == old(self).display_width(),
            final(self).display_height() == old(self).display_height(),
            forall|c: int, r: int| #[trigger] final(self).pixel_on(c, r) == old(self).pixel_on(
                c,
                r,
            ),
            forall|k: int| #[trigger] final(self).key_pressed(k) == old(self).key_pressed(k),
            final(self).buzzer_on() == (state is On),
    ;
}

/// Both platform states report the same display geometry.
pub open spec fn same_geometry<P: Platform>(a: &P, b: &P) -> bool {
    b.display_width() == a.display_width() && b.display_height() == a.display_height()
}

/// Both platform states light the same pixels.
pub open spec fn same_pixels<P: Platform>(a: &P, b: &P) -> bool {
    forall|c: int, r: int|
        #![trigger a.pixel_on(c, r)]
        #![trigger b.pixel_on(c, r)]
        b.pixel_on(c, r) == a.pixel_on(c, r)
}

/// Both platform states report the same pressed keys.
pub open spec fn same_keys<P: Platform>(a: &P, b: &P) -> bool {
    forall|k: int| #![trigger a.key_pressed(k)] #![trigger b.key_pressed(k)]
        b.key_pressed(k) == a.key_pressed(k)
}

/// The peripheral state of one platform operation is unchanged in full.
pub open spec fn same_peripherals<P: Platform>(a: &P, b: &P) -> bool {
    same_geometry(a, b) && same_pixels(a, b) && same_keys(a, b) && b.buzzer_on() == a.buzzer_on()
}

/// The in-memory peripheral set: a row-major pixel buffer, a 16-key
/// keypad and a buzzer flag, all held as plain data. It is the test
/// double of the capability interface, and the proof that the interface's
/// contracts can be met.
pub struct TestPlatform {
    pub width: u8,
    pub height: u8,
    pub pixels: Vec<bool>,
    pub keys: Vec<bool>,
    pub buzzer: bool,
}

/// A row-major position is inside a width-by-height buffer.
proof fn lemma_row_major_bound(w: int, h: int, c: int, r: int)
    by (nonlinear_arith)
    requires
        0 <= c < w,
        0 <= r < h,
    ensures
        0 <= r * w + c < w * h,
{
}

/// Row-major positions of distinct in-range cells are distinct.
proof fn lemma_row_major_injective(w: int, c1: int, r1: int, c2: int, r2: int)
    by (nonlinear_arith)
    requires
        0 <= c1 < w,
        0 <= c2 < w,
        0 <= r1,
        0 <= r2,
        r1 * w + c1 == r2 * w + c2,
    ensures
        c1 == c2,
        r1 == r2,
{
}

/// A vector of `n` cleared flags.
fn cleared_flags(n: usize) -> (v: Vec<bool>)
    ensures
        v.len() == n,
        forall|i: int| 0 <= i < n ==> !v@[i],
{
    let mut v: Vec<bool> = Vec::new();
    let mut i: usize = 0;
    while i < n
        invariant
            i <= n,
            v.len() == i,
            forall|j: int| 0 <= j < i ==> !v@[j],
        decreases n - i,
    {
        v.push(false);
        i = i + 1;
    }
    v
}

impl TestPlatform {
    /// A fresh peripheral set: everything dark, released and silent.
    pub fn new(width: u8, height: u8) -> (r: Self)
        requires
            width > 0,
            height > 0,
        ensures
            r.inv(),
            r.display_width() == width,
            r.display_height() == height,
            forall|c: int, rr: int| !r.pixel_on(c, rr),
            forall|k: int| !r.key_pressed(k),
            !r.buzzer_on(),
    {
        proof {
            assert(width as int * height as int <= 255 * 255) by (nonlinear_arith)
                requires
                    width <= 255,
                    height <= 255,
            ;
        }
        let pixels = cleared_flags(width as usize * height as usize);
        let keys = cleared_flags(KEYPAD_COUNT as usize);
        let result = TestPlatform { width, height, pixels, keys, buzzer: false };
        proof {
            assert forall|c: int, rr: int| !result.pixel_on(c, rr) by {
                if 0 <= c < result.width && 0 <= rr < result.height {
                    lemma_row_major_bound(result.width as int, result.height as int, c, rr);
                }
            }
        }
        result
    }

    /// Press or release one key.
    pub fn set_keypress(&mut self, key: KeypadNumber, key_state: KeyState)
        requires
            old(self).inv(),
            key.0 < KEYPAD_COUNT,
        ensures
            final(self).inv(),
            final(self).display_width() == old(self).display_width(),
            final(self).display_height() == old(self).display_height(),
            forall|c: int, r: int| #[trigger] final(self).pixel_on(c, r) == old(self).pixel_on(
                c,
                r,
            ),
            forall|k: int|
                #![trigger final(self).key_pressed(k)]
                #![trigger old(self).key_pressed(k)]
                final(self).key_pressed(k) == (if k == key.0 as int {
                    key_state is On
                } else {
                    old(self).key_pressed(k)
                }),
            final(self).buzzer_on() == old(self).buzzer_on(),
    {
        let pressed = match key_state {
            KeyState::On => true,
            KeyState::Off => false,
        };
        self.keys.set(key.0 as usize, pressed);
    }

    /// The buzzer flag as the engine last drove it.
    pub fn get_buzzer(&self) -> (r: BuzzerState)
        ensures
            r == (if self.buzzer_on() {
                BuzzerState::On
            } else {
                BuzzerState::Off
            }),
    {
        if self.buzzer {
            BuzzerState::On
        } else {
            BuzzerState::Off
        }
    }
}

impl Platform for TestPlatform {
    open spec fn inv(&self) -> bool {
        &&& self.width > 0
        &&& self.height > 0
        &&& self.pixels.len() == self.width as int * self.height as int
        &&& self.keys.len() == KEYPAD_COUNT
    }

    open spec fn display_width(&self) -> u8 {
        self.width
    }

    open spec fn display_height(&self) -> u8 {
        self.height
    }

    open spec fn pixel_on(&self, column: int, row: int) -> bool {
        &&& 0 <= column < self.width
        &&& 0 <= row < self.height
        &&& self.pixels@[row * self.width as int + column]
    }

    open spec fn key_pressed(&self, key: int) -> bool {
        0 <= key < KEYPAD_COUNT && self.keys@[key]
    }

    open spec fn buzzer_on(&self) -> bool {
        self.buzzer
    }

    fn get_display_width(&self) -> (r: u8) {
        self.width
    }

    fn get_display_height(&self) -> (r: u8) {
        self.height
    }

    fn clear_display(&mut self) {
        proof {
            assert(self.width as int * self.height as int <= 255 * 255) by (nonlinear_arith)
                requires
                    self.width <= 255,
                    self.height <= 255,
            ;
        }
        let n: usize = self.width as usize * self.height as usize;
        self.pixels = cleared_flags(n);
        proof {
            assert forall|c: int, r: int| !self.pixel_on(c, r) by {
                if 0 <= c < self.width && 0 <= r < self.height {
                    lemma_row_major_bound(self.width as int, self.height as int, c, r);
                }
            }
        }
    }

    fn get_pixel(&self, pixel: Pixel) -> (r: PixelState) {
        proof {
            lemma_row_major_bound(
                self.width as int,
                self.height as int,
                pixel.column as int,
                pixel.row as int,
            );
        }
        let index: usize = pixel.row as usize * self.width as usize + pixel.column as usize;
        if self.pixels[index] {
            PixelState::On
        } else {
            PixelState::Off
        }
    }

    fn set_pixel(&mut self, pixel: Pixel, state: PixelState) {
        proof {
            lemma_row_major_bound(
                self.width as int,
                self.height as int,
                pixel.column as int,
                pixel.row as int,
            );
        }
        let index: usize = pixel.row as usize * self.width as usize + pixel.column as usize;
        let lit = match state {
            PixelState::On => true,
            PixelState::Off => false,
        };
        self.pixels.set(index, lit);
        proof {
            assert forall|c: int, r: int|
                self.pixel_on(c, r) == (if c == pixel.column as int
                    && r == pixel.row as int {
                    state is On
                } else {
                    old(self).pixel_on(c, r)
                }) by {
                if 0 <= c < self.width && 0 <= r < self.height {
                    lemma_row_major_bound(self.width as int, self.height as int, c, r);
                    if r * self.width as int + c == index {
                        lemma_row_major_injective(
                            self.width as int,
                            c,
                            r,
                            pixel.column as int,
                            pixel.row as int,
                        );
                    }
                }
            }
        }
    }

    fn block_for_any_keypress(&mut self) -> (r: KeyState) {
        let mut i: usize = 0;
        let mut any: bool = false;
        while i < KEYPAD_COUNT as usize
            invariant
                i <= KEYPAD_COUNT,
                self.inv(),
            decreases KEYPAD_COUNT - i,
        {
            if self.keys[i] {
                any = true;
            }
            i = i + 1;
        }
        if any {
            KeyState::On
        } else {
            KeyState::Off
        }
    }

    fn read_keypress_state(&self, key: KeypadNumber) -> (r: KeyState) {
        if key.0 < KEYPAD_COUNT && self.keys[key.0 as usize] {
            KeyState::On
        } else {
            KeyState::Off
        }
    }

    fn set_buzzer(&mut self, state: BuzzerState) {
        self.buzzer = match state {
            BuzzerState::On => true,
            BuzzerState::Off => false,
        };
    }
}

} // verus!
