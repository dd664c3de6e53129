//! Traits at work on small types: default methods, derived equality, trait
//! bounds, static and dynamic dispatch, and associated types.

use vstd::prelude::*;
use vstd::std_specs::ops::AddSpec;

verus! {

/// Someone who can greet and say a sentence.
pub trait Hello {
    /// A greeting.  Unless an implementation chooses its own, it is `hi`.
    fn say_hi(&self) -> (greeting: String)
        default_ensures
            greeting@ == "hi"@,
    {
        "hi".to_owned()
    }

    /// A sentence about oneself.
    fn say_something(&self) -> String;
}

/// A student, who greets like anyone else.
pub struct Student {}

impl Hello for Student {
    fn say_something(&self) -> (sentence: String)
        ensures
            sentence@ == "I'm a good student"@,
    {
        "I'm a good student".to_owned()
    }

    fn say_hi(&self) -> (greeting: String)
        ensures
            greeting@ == "hi"@,
    {
        "hi".to_owned()
    }
}

/// A teacher, who has a greeting of their own.
pub struct Teacher {}

impl Hello for Teacher {
    fn say_hi(&self) -> (greeting: String)
        ensures
            greeting@ == "Hi, I'm your new teacher"@,
    {
        "Hi, I'm your new teacher".to_owned()
    }

    fn say_something(&self) -> (sentence: String)
        ensures
            sentence@ == "I'm not a bad teacher"@,
    {
        "I'm not a bad teacher".to_owned()
    }
}

/// A point of the plane with integer coordinates.  Two points are equal
/// when both coordinates are.
#[derive(Debug, PartialEq)]
pub struct Point {
    pub x: i32,
    pub y: i32,
}

/// The sum of two values of a type that can be added.
pub fn sum<T: std::ops::Add<Output = T>>(x: T, y: T) -> (total: T)
    requires
        x.add_req(y),
    ensures
        T::obeys_add_spec() ==> total == x.add_spec(y),
{
    x + y
}

/// The character that shows a decimal digit.
pub open spec fn digit_char(d: nat) -> char
    recommends
        d < 10,
{
    if d == 0 {
        '0'
    } else if d == 1 {
        '1'
    } else if d == 2 {
        '2'
    } else if d == 3 {
        '3'
    } else if d == 4 {
        '4'
    } else if d == 5 {
        '5'
    } else if d == 6 {
        '6'
    } else if d == 7 {
        '7'
    } else if d == 8 {
        '8'
    } else {
        '9'
    }
}

/// A number written in decimal, without leading zeros.
pub open spec fn decimal_text(n: nat) -> Seq<char>
    decreases n,
{
    if n < 10 {
        seq![digit_char(n)]
    } else {
        decimal_text(n / 10).push(digit_char(n % 10))
    }
}

/// The text of one decimal digit.
fn digit_str(d: u8) -> (text: &'static str)
    requires
        d < 10,
    ensures
        text@ == seq![digit_char(d as nat)],
{
    proof {
        reveal_strlit("0");
        reveal_strlit("1");
        reveal_strlit("2");
        reveal_strlit("3");
        reveal_strlit("4");
        reveal_strlit("5");
        reveal_strlit("6");
        reveal_strlit("7");
        reveal_strlit("8");
        reveal_strlit("9");
    }
    let text = match d {
        0 => "0",
        1 => "1",
        2 => "2",
        3 => "3",
        4 => "4",
        5 => "5",
        6 => "6",
        7 => "7",
        8 => "8",
        _ => "9",
    };
    assert(text@ =~= seq![digit_char(d as nat)]);
    text
}

/// `label` followed by `n` in decimal.
fn labelled(label: &str, n: u8) -> (text: String)
    ensures
        text@ == label@ + decimal_text(n as nat),
{
    let mut text = label.to_owned();
    if n >= 100 {
        text.append(digit_str(n / 100));
    }
    if n >= 10 {
        text.append(digit_str(n / 10 % 10));
    }
    text.append(digit_str(n % 10));
    proof {
        reveal_with_fuel(decimal_text, 3);
        assert(text@ =~= label@ + decimal_text(n as nat));
    }
    text
}

/// Something that can describe itself.
pub trait Foo {
    /// The description: the name of the type, a colon and the value.
    fn method(&self) -> String;
}

impl Foo for u8 {
    fn method(&self) -> (text: String)
        ensures
            text@ == "u8: "@ + decimal_text(*self as nat),
    {
        labelled("u8: ", *self)
    }
}

impl Foo for String {
    fn method(&self) -> (text: String)
        ensures
            text@ == "string: "@ + self@,
    {
        let mut text = "string: ".to_owned();
        text.append(self.as_str());
        text
    }
}

/// Has `x` describe itself, the implementation being chosen at compile
/// time.
pub fn static_dispatch<T: Foo>(x: T) {
    let _ = x.method();
}

/// Has `x` describe itself, the implementation being chosen at run time.
pub fn dynamic_dispatch(x: &dyn Foo) {
    let _ = x.method();
}

/// Something that can be drawn as a line of text.
pub trait Draw {
    /// The drawing: the name of the type, a colon and the value.
    fn draw(&self) -> String;
}

impl Draw for u8 {
    fn draw(&self) -> (text: String)
        ensures
            text@ == "u8: "@ + decimal_text(*self as nat),
    {
        labelled("u8: ", *self)
    }
}

/// Draws a value that is owned through a box.
pub fn draw_with_box(x: Box<dyn Draw>) {
    let _ = x.draw();
}

/// Draws a value that is borrowed.
pub fn draw_with_ref(x: &dyn Draw) {
    let _ = x.draw();
}

/// A collection that items can be put into and taken out of.
pub trait Container {
    /// What the collection holds.
    type Item;

    /// Puts `item` into the collection.
    fn insert(&mut self, item: Self::Item);

    /// Takes an item out of the collection, if it holds one.
    fn remove(&mut self) -> Option<Self::Item>;

    /// Whether the collection holds nothing.
    fn is_empty(&self) -> bool;
}

/// A stack of bytes: what was put in last is taken out first.
pub struct Stack {
    /// The bytes held, the oldest first.
    pub items: Vec<u8>,
}

impl View for Stack {
    type V = Seq<u8>;

    open spec fn view(&self) -> Seq<u8> {
        self.items@
    }
}

impl Container for Stack {
    type Item = u8;

    fn insert(&mut self, item: u8)
        ensures
            final(self)@ == old(self)@.push(item),
    {
        self.items.push(item);
    }

    fn remove(&mut self) -> (item: Option<u8>)
        ensures
            old(self)@.len() == 0 ==> item.is_none() && final(self)@ == old(self)@,
            old(self)@.len() > 0 ==> item == Some(old(self)@.last()) && final(self)@ == old(
                self,
            )@.drop_last(),
    {
        self.items.pop()
    }

    fn is_empty(&self) -> (empty: bool)
        ensures
            empty == (self@.len() == 0),
    {
        self.items.len() == 0
    }
}

} // verus!
