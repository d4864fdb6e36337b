# matrix_sync

The decision logic of two Matrix synchronisation loops, verified with Verus:

* `to_device`: fetches to-device messages and encryption keys over sliding sync. It
  keeps the server's position marker and the to-device token, and saves the token
  in the client's store.
* `notifications`: a stream of notification updates. Each iteration takes the
  cross-process lock of the encryption store, waits for an update of the sliding
  sync, and gives the lock back.
* `notification_sync`: what an embedding application sees of such a stream, with a
  listener that is told when it is over.

The library does no I/O. A function returns the step that is due, the caller takes
it and hands what came of it to the next function. What the steps amount to is
stated over mathematical models: `Progress` for a to-device synchronisation and
`Moment` for a notification stream. `to_device_runs::advance` and
`notification_runs::advance` are proved to follow them. Among what is proved:

* a to-device token that is set never becomes unset, and what one loop saves the
  next one finds;
* a synchronisation reports its first failure, and takes a response in entirely or
  not at all, whatever others do to the loop meanwhile;
* those who share a loop handle responses one at a time (`shared_loop`);
* a stream gives the store's lock back as often as it takes it, but for the one held
  while it waits for an update, whatever other streams do to the iterations;
* with a fixed number of iterations, those that a stream has begun, those that other
  streams have begun and those that are left add up to it; a stream yields one update
  for each of its own unless something fails, and nothing follows an error;
* the listener is told exactly once, when the stream has ended or failed.

`src/` is the library, `tests/` its tests. `app/` runs the loops against a Matrix
client: it holds the asynchronous code, the locks, the conversions to the protocol's
types and the JSON of the saved token.

The one thing from outside that the library holds is `url::Url`, of which it assumes
nothing.
