# icell

Cells whose contents are reached through an owner. An `ICell` carries an id;
an `Owner` holds an `Identifier` that decides which ids it accepts. Reading,
writing or swapping cells goes through an owner that recognizes their ids.

The library in `src/` is verified with Verus:

- `cells`: `Owner`, `ICell`, and the `Identifier` and `Transparent` traits.
  Each access states what the cell held and what it holds afterwards; for
  `write`, `write_2`, `write_3` and `write_4`, writes through the returned
  references land in the cells. For `write_all` over a list of any length
  only what each reference holds is stated.
- `hlist`: lists of cells built from `Cons` and `Nil`, opened all at once.
- `scoped`, `generative`: owners identified by a lifetime.
- `typeid`, `typeid_tl`: owners identified by a type, per process or per
  thread; the spinning flag and the per-thread flag logic.
- `runtime`: owners identified by a value drawn from a counter, pools that
  take values back, and in `runtime::builder` how raw counter values advance
  and become ids.

Cells are written through `&mut ICell`: exclusive access to a cell stands in
for interior mutability, so two writes can never
alias.

`app/` holds what the verified crate cannot: owners identified by their
memory address (`immovable`), the process-wide counters and pools, the owner
constructors that panic when ids run out, the blocking type flag, and the
macros.
