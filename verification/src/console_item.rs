//! The console item: using it prints its message to the debug overlay.

use vstd::prelude::*;
use crate::debug_overlay::{DebugLog, spec_console_log, spec_console_log_changed};
use crate::items::ItemEvent;

verus! {

/// An item that, when used, logs the string it carries.
#[derive(Debug)]
pub struct ConsoleItem(pub String);

/// The first index of a console item owned by entity `id`, or -1.
pub open spec fn spec_find_console_item(items: Seq<(u64, String)>, id: u64) -> int
    decreases items.len(),
{
    if items.len() == 0 {
        -1
    } else if items[0].0 == id {
        0
    } else {
        let r = spec_find_console_item(items.drop_first(), id);
        if r == -1 {
            -1
        } else {
            r + 1
        }
    }
}

/// An item search lands at -1 or at a valid index whose owner matches.
pub proof fn lemma_find_console_item_range(items: Seq<(u64, String)>, id: u64)
    ensures
        -1 <= spec_find_console_item(items, id) < items.len(),
        spec_find_console_item(items, id) >= 0 ==> items[spec_find_console_item(items, id)].0
            == id,
    decreases items.len(),
{
    if items.len() > 0 && items[0].0 != id {
        lemma_find_console_item_range(items.drop_first(), id);
    }
}

/// Whether an event is a use of the given entity's item.
pub open spec fn spec_used_by(e: ItemEvent, id: u64) -> bool {
    e matches ItemEvent::Used { entity, .. } && entity == id
}

/// Handle one item event for this item kind: a `Used` event whose entity
/// owns a console item logs that item's message under the key
/// `Console Item`; any other event leaves the log alone.
pub fn use_item(event: &ItemEvent, console_items: &Vec<(u64, String)>, log: &mut DebugLog)
    ensures
        *event matches ItemEvent::Used { entity, .. } ==> (if spec_find_console_item(
            console_items@,
            entity,
        ) >= 0 {
            final(log)@ == spec_console_log(
                old(log)@,
                "Console Item"@,
                console_items@[spec_find_console_item(console_items@, entity)].1@,
            ) && final(log).changed == (old(log).changed || spec_console_log_changed(
                old(log)@,
                "Console Item"@,
                console_items@[spec_find_console_item(console_items@, entity)].1@,
            ))
        } else {
            *final(log) == *old(log)
        }),
        *event matches ItemEvent::Dropped { .. } ==> *final(log) == *old(log),
{
    match event {
        ItemEvent::Used { entity, .. } => {
            let len = console_items.len();
            let mut i: usize = 0;
            proof {
                assert(console_items@.subrange(0, len as int) =~= console_items@);
            }
            while i < len
                invariant
                    i <= len,
                    len == console_items@.len(),
                    *log == *old(log),
                    spec_used_by(*event, *entity),
                    spec_find_console_item(console_items@, *entity) == (if spec_find_console_item(
                        console_items@.subrange(i as int, len as int),
                        *entity,
                    ) == -1 {
                        -1int
                    } else {
                        i + spec_find_console_item(
                            console_items@.subrange(i as int, len as int),
                            *entity,
                        )
                    }),
                decreases len - i,
            {
                let ghost rest = console_items@.subrange(i as int, len as int);
                proof {
                    assert(rest.drop_first() =~= console_items@.subrange(i + 1, len as int));
                    assert(rest[0] == console_items@[i as int]);
                }
                if console_items[i].0 == *entity {
                    proof {
                        assert(spec_find_console_item(rest, *entity) == 0);
                        assert(spec_find_console_item(console_items@, *entity) == i as int);
                    }
                    let message = console_items[i].1.clone();
                    proof {
                        assert(message@ == console_items@[i as int].1@);
                        assert(log@ == old(log)@);
                    }
                    let key = String::from_str("Console Item");
                    proof {
                        assert(key@ == "Console Item"@);
                    }
                    crate::debug_overlay::console_log(log, key, message);
                    proof {
                        assert(log@ == spec_console_log(
                            old(log)@,
                            "Console Item"@,
                            console_items@[i as int].1@,
                        ));
                    }
                    return ;
                }
                proof {
                    lemma_find_console_item_range(rest.drop_first(), *entity);
                    assert(spec_find_console_item(rest, *entity) == (if spec_find_console_item(
                        rest.drop_first(),
                        *entity,
                    ) == -1 {
                        -1int
                    } else {
                        1 + spec_find_console_item(rest.drop_first(), *entity)
                    }));
                }
                i += 1;
            }
            proof {
                assert(console_items@.subrange(len as int, len as int) =~= Seq::<(
                    u64,
                    String,
                )>::empty());
            }
        },
        ItemEvent::Dropped { .. } => {
        },
    }
}

} // verus!
