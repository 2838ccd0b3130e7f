use std::cell::Cell;
use std::rc::Rc;
use untagged_option::UntaggedOption;

/// A value whose drop increments a shared counter, to observe whether and
/// when disposal runs.
struct DropCounter(Rc<Cell<usize>>);

impl Drop for DropCounter {
    fn drop(&mut self) {
        self.0.set(self.0.get() + 1);
    }
}

#[test]
fn static_context() {
    let mut my_opt: UntaggedOption<u8> = UntaggedOption::none();
    my_opt = UntaggedOption::some(123);
    assert_eq!(*my_opt.as_ref(), 123);
    *my_opt.as_mut() = 42;
    assert_eq!(*my_opt.as_ref(), 42);
    my_opt.take();
}

#[test]
fn correct_drop() {
    let count = Rc::new(Cell::new(0_usize));

    let mut opt = UntaggedOption::some(DropCounter(Rc::clone(&count)));
    drop(opt);
    assert_eq!(count.get(), 0);
    opt = UntaggedOption::some(DropCounter(Rc::clone(&count)));
    assert_eq!(count.get(), 0);
    opt.take();
    assert_eq!(count.get(), 1);
}

#[test]
fn round_trip() {
    let mut opt = UntaggedOption::some(String::from("stored"));
    let value = opt.take();
    assert_eq!(value, "stored");
    // The cell is empty again: a fresh construction stores cleanly.
    opt = UntaggedOption::some(String::from("again"));
    assert_eq!(opt.take(), "again");
}

#[test]
fn mutation_seen_by_later_reads() {
    let mut opt = UntaggedOption::some(vec![1_u32, 2, 3]);
    opt.as_mut().push(4);
    assert_eq!(opt.as_ref().as_slice(), &[1, 2, 3, 4]);
    assert_eq!(opt.take(), vec![1, 2, 3, 4]);
}

#[test]
fn overwrite_without_take_leaks() {
    let count = Rc::new(Cell::new(0_usize));

    let mut opt = UntaggedOption::some(DropCounter(Rc::clone(&count)));
    // Overwriting an occupied cell releases nothing: the old value leaks.
    opt = UntaggedOption::some(DropCounter(Rc::clone(&count)));
    assert_eq!(count.get(), 0);
    // Only the value taken out is ever disposed of.
    opt.take();
    assert_eq!(count.get(), 1);
}

#[test]
fn size_with_spare_representation() {
    // With a contained type that has a representation left over for the
    // unoccupied case, the cell is exactly as wide as the type itself.
    assert_eq!(
        std::mem::size_of::<UntaggedOption<&u32>>(),
        std::mem::size_of::<&u32>()
    );
    assert_eq!(
        std::mem::size_of::<UntaggedOption<Box<u8>>>(),
        std::mem::size_of::<Box<u8>>()
    );
}
