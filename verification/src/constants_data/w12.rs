//! The raw limb data of permutation width 12: the `(8 + 60) * 12`
//! additive round constants and the `12 * 12` row-major mixing matrix,
//! each entry a canonical field value below the modulus, little-endian in
//! four 64-bit limbs.

use vstd::prelude::*;

verus! {

use vstd::slice::slice_to_vec;

const C_T12: [[u64; 4]; 816] = [
    [13019163725912690271, 17831376289416665647, 9939568708494062748, 1518521220666386725],
    [5201327689120485784, 3847632679997179977, 2086948159225652623, 3103150431059914806],
    [2288124371212402484, 16289830897521045974, 4415872311721111881, 168986058962173781],
    [15185091319137251132, 4287772696479250882, 12875107881903751632, 143984824209007348],
    [8569431135466702300, 10048523239771522672, 5536326580599592620, 1949125165966490173],
    [17934750335151004621, 500727850177208160, 12069744396925580668, 1138140353514722583],
    [3838479562438580564, 7542838836713492866, 11308293534486440777, 3297406749840511715],
    [6632123291405465188, 12717209208036823284, 11847773751162976446, 409222693511072141],
    [6383083348555236767, 2079609236074772170, 11060793795834251289, 2434998681265917354],
    [3103039038941609732, 1652089228634677079, 6390683229414961741, 1829082691448496368],
    [1596606255434555074, 3269477287062455364, 26461698434757373, 1690613672420459370],
    [9199983853456890520, 8426884712122366168, 4136011947011790600, 486785820201774744],
    [13569952092635001947, 8861734460263521840, 2004409017960593738, 2505034527323854602],
    [12712616013909357818, 10862891274858110563, 8629655053773214401, 2267476165258200456],
    [7485936846112146758, 5041419188004827325, 11249338596514000974, 2480425657959081777],
    [7585926579092583969, 7550999264494973039, 9829872746470036106, 391527172870662374],
    [9259333622189874559, 16254619569992438750, 673423930991618000, 2982515747170819085],
    [9759312870253197387, 3347831116860901250, 11383110645416811506, 2306090081521967344],
    [10212161184533359921, 17750011337964402305, 14328262281680441039, 2485766433618013508],
    [6856229459014797940, 1844231901217844375, 2473650410793244649, 2595309353193811351],
    [17288852478687885951, 4761099491198031076, 5448092524045735692, 248986248047353523],
    [3127976846365383005, 7144376726989541522, 6866584050182691994, 1795255409678927506],
    [2700185375660907665, 17979198879946379356, 4332108341894270033, 1266967234627388459],
    [5479456121635865924, 11495838665913817058, 3825714563088014228, 1350563336562560544],
    [6852119073123648344, 150091716570430364, 214743821376574010, 2587328428763767903],
    [2578543755128017774, 5688632603921384929, 13661593136081912659, 532546582120844205],
    [4725275122015140103, 4955204452873040177, 6821993897038897747, 2856684942018874049],
    [5207837753913899117, 12499840093067284988, 6115537736704176193, 3309665077824419174],
    [15126911310477538133, 2256886443191070963, 10481898030810152481, 815522965049711394],
    [14764988249427343723, 13867635491428829875, 9252088675256473559, 2384342008111490828],
    [14988018745263193694, 3595384524743051894, 15098815798144883351, 666959979335068888],
    [6448160544647491217, 13101503175482035414, 3394333004476050109, 3143647159292973788],
    [17247980068724703345, 4185945208356448376, 13037794400958474490, 1923018873933595926],
    [3555458663283957165, 3432426991624372543, 15797761065534958400, 1820383098113577957],
    [9590191759044272699, 15817811050169098924, 16483102025909657236, 528356846889234031],
    [2386491357909606447, 11858340784913991547, 17753959856721907610, 1303331703253746874],
    [17989246100742793154, 5495551385538572484, 621678748147206581, 841965663379221437],
    [2029923905967509165, 12864292761373077209, 15523293352360536979, 3326289884270785958],
    [3766186261547875919, 5535562068375203065, 12065659635572683217, 1469694732073487040],
    [18351012538378601548, 17646348089256344266, 10494829776734061301, 2530221342786950231],
    [11786646519630667382, 2419103579128185330, 13637644584050418610, 117926806518375535],
    [4061395776992406329, 17003814006028878419, 11185969289244516264, 28742095688523966],
    [15830724022637821107, 11572918145556973872, 2788769829471483869, 2258095235265788271],
    [3037914776009902113, 2399082500697869892, 9550355854334373824, 1368327760515455580],
    [17631519174462467343, 14417859195318677545, 16283441721284497093, 2964517809931395419],
    [2948271302040944460, 9775386746722164694, 16256682100295158715, 2111732996389558281],
    [17488259985431249899, 15660570944876835641, 12249092366620873941, 3192624214436384302],
    [12392370480513468806, 12820188073653191248, 3270451674698987209, 577305746836958039],
    [5658589769425778894, 14836088031558447913, 18335723746739412836, 1817826955021939163],
    [17322373179179039896, 2938243413524068771, 1258938546182076381, 2729839116359662838],
    [7395928410734318870, 18008560205463441733, 5070181280128753267, 2165547078063334994],
    [11238017290808467385, 574905265282093560, 8763435883858028713, 1410104253044671892],
    [10938094325061544229, 5199586189859218554, 9294458308941992132, 1351939016311524107],
    [9936447788448127710, 17508642377676292172, 4548870842549071729, 2349410756618292915],
    [9901474076275674793, 10440827206237703260, 1618950814518206220, 848837311793420765],
    [14427502139200772708, 5175482788410067640, 97155168138507831, 1906257175485064023],
    [6471783537212519277, 4757202762986354225, 16999952832319738448, 1019253631168768987],
    [11188648902246595068, 18216131958012365032, 12771764631511400807, 3074416442293310873],
    [7969751881146045460, 4296462969814918559, 14600658186949084316, 3189283238142722099],
    [7544138999144795562, 11046179603032531284, 1349934514201777740, 79475579032914521],
    [8928667553892101134, 16927856157280012105, 13304818068789357843, 2497004112076381301],
    [13177536599598249919, 8081654100402711172, 15151311437493529072, 2491113747984257831],
    [9811137294856427158, 9586629711807839818, 12867976261165346582, 3480802618237821850],
    [1191271935403227620, 7628626882193324352, 3596916587098268649, 591123334541902753],
    [3175306332209349791, 8792145365143429538, 17842406001831487481, 1179032732189330147],
    [11772783939034260104, 12864631318913559110, 15804231635479592519, 3042098768683518125],
    [8464840578818886074, 13360347847962817112, 2665693351833425878, 1186910630387241405],
    [11079055135222890029, 926097125962168876, 6723336609896997510, 2009902559951517306],
    [11173147192148979519, 17136339671208613070, 13580211228702875015, 471936972608497627],
    [13362919348799985437, 7611543536105706477, 16374852467257082441, 3281304673810998841],
    [3193473446178030047, 15984390227371366004, 6474167855139803290, 954272103343926015],
    [1005224563613932477, 2300206865679723197, 1425313126338755199, 1491437433055336904],
    [902586607183510925, 7510599342120142173, 12127273623086651261, 2508479911054069625],
    [13847736550367767183, 6671343260332858164, 2214978972602766879, 1936523265283467571],
    [14932662484947160950, 6563287638392341024, 6907185787488074923, 2833242292074607034],
    [4658994652445256609, 2350466688136103586, 9390207052765144051, 396194329510621249],
    [9482804325385405342, 4173622813013988860, 291656816890837052, 781179855611955612],
    [8440840487542669043, 6606193803461918454, 2730490683746562869, 792847915395822894],
    [10150099731159153540, 17405630550310501464, 1888871428278148733, 2852247631492866201],
    [16933651603219668523, 3431948653217319996, 7489053882481212913, 655129816260893134],
    [8105186424296659523, 524185293561765795, 16513159110167729280, 2001707471927930620],
    [17882696859299670961, 14600737266765421746, 15012574690245340347, 3399393683065479426],
    [15398693449781905419, 1116526947867956889, 3060846491448586372, 2403793163882625333],
    [5890171733376771915, 18161085855620666170, 5876752124395683764, 1038980400072210781],
    [2918510798517457952, 6925990962208544988, 12119042773607401339, 2821846527322989450],
    [4249054071679366183, 13932576356676131266, 10626678709985391969, 2791190817635176444],
    [7591213297055465469, 15072424427900484024, 17228236651557888978, 3245184526107847542],
    [4049595423751016068, 14176200924057717611, 2260087431360198876, 177252330350726203],
    [12331516743121345962, 9663126934837820146, 2548051947704919451, 2222025368072517772],
    [10143495842601867500, 10479195425117514144, 12345575876845498511, 3185026253027413292],
    [4507664678269931674, 10973959918802948364, 14508591522064625907, 3260053301960840324],
    [2876965509475453971, 4711099610096368787, 16965795020046176382, 382315975374723791],
    [17689484418215178134, 14454939890974158104, 522128429589136946, 164759595267979586],
    [14002633818020669809, 12363084550631266083, 15946875537755931627, 1822645146306694096],
    [8345104848235310083, 9377376688796649380, 16416635655661624842, 2260591197179902213],
    [6696883239868217862, 4275460195611540412, 7516438306879282682, 1961945453886997018],
    [10171740262556567350, 12493951458398747326, 3444884820913032326, 3140805120770124329],
    [10019181046859379063, 18063320767903342949, 12038348026363796212, 838547134755140468],
    [4114342199611947602, 11684779599955119599, 8405411075909202675, 2726883110535084331],
    [9997148282268220123, 4084871554752648494, 7063212518167717373, 2065455759573945626],
    [3857374733856884919, 16889715205217722025, 5910187492053477981, 1914263902597327862],
    [16916653739387409636, 2260366144053348918, 16269241474577540944, 912809843562754225],
    [5988960945770560729, 14853235529173646233, 15125351741525897992, 2058026456100016233],
    [8577232912537659648, 1518656429402138041, 7905484491010769915, 1931273650486051991],
    [13554066329338095364, 16088163712946797691, 8726763066008836956, 318838395623738471],
    [18036289184409043631, 3011170866590272257, 1862168475016967102, 3119591357501963290],
    [11278467870023345607, 12272246308697235380, 6999882905839632339, 1916846721771125738],
    [470879079137618799, 12456937125425193902, 7438364929846319152, 714768352081150224],
    [2405497206479417252, 1568889950604943559, 8238822188849572342, 936868465133218916],
    [17439906110533562926, 15900788533871218643, 11719819734697421208, 381619416396402689],
    [7399289389971265979, 7143669485758083969, 9801047844132233244, 2063210635676681962],
    [4618831152072536539, 8311336707752204521, 3688691585703860705, 356440635132343291],
    [8556922520036447549, 3932444142288959612, 82189459292121961, 1799868619640802522],
    [14239266725826310466, 18188233433840795397, 15218394120648974735, 847087730030204230],
    [7543915527915087384, 183922624408380261, 16342818783848353619, 3326885974183207696],
    [6044619497311714038, 4000478971221014514, 16886738801009652235, 1303506285378586864],
    [2292059012866083330, 16627619972736745633, 3229732644666895643, 1528992367334486868],
    [12614259387139636175, 8544245432163671079, 15966070060059392434, 2714076473730992696],
    [1720387988937817660, 724907257981518501, 10702993022883104977, 1850027498654343312],
    [12186604795369091842, 7674139991321472873, 1435743240634678450, 1423176211146541103],
    [281497657298520605, 8548767143289026388, 4668148551919171490, 2301073111134001394],
    [9930222223532900006, 16644351394525612344, 4354026400304863750, 224506951709641316],
    [3847361107511362289, 2934341347993541610, 1442403214944662167, 1904118877897413443],
    [7850393126439752358, 10600107973410833350, 10235378019301864065, 3259373417002899567],
    [8532714036988860079, 11689676736209807351, 5426013836500747619, 565861676459867842],
    [1611489547450675196, 14300257597000093352, 2010430289398746748, 2762209724835819981],
    [13157688435101287122, 14029499687313479430, 3742872479969227179, 3340449771061831108],
    [5769525802629319303, 15748384405368309072, 13821848026431498502, 3458983959234551524],
    [10124550939825922131, 17226414155214592773, 14941647028675068968, 1216320481113832200],
    [1551232793299186825, 2498569596445566658, 17203610517008271169, 3162275960161298020],
    [3364449133804152236, 18422174524146858251, 14434248632915041577, 2391695179774587500],
    [11382751185746569189, 2655038596506209726, 2331735927676160991, 1502240697144603970],
    [13884328440352908254, 2058985530609902694, 14857691639821495098, 408976675179429889],
    [3101674720376146394, 15009903441546329190, 2588804984953605750, 1315049312295370086],
    [767722224391191287, 17206388642261913729, 15970293511602769393, 2753540653063627870],
    [12708003656525674624, 15197043567457669717, 7162782977279791603, 2379323510362009269],
    [6290340772868714660, 11354536675670057257, 7639094286557282891, 2516964157225899314],
    [7996201791695830060, 842951575456168942, 17764444358479685930, 1028356078790295858],
    [12725541089191302712, 7654797647547702622, 10048534855630345954, 2160492725985236707],
    [13741689809422375958, 7580738616736566055, 865094875390809707, 488066633839938726],
    [7010416429741346424, 12482089659495933050, 10259733637746328829, 83396874995500820],
    [13638883078317077293, 13127142279318276713, 17996971094586872929, 1427925858277465208],
    [2986562495481209224, 5508618566019150338, 12177019925457696832, 449627156684211674],
    [3484950629007002168, 9674249766470370956, 3627030870227546977, 1577314403322704109],
    [1109826969105219056, 3284903016395546716, 16179003917891997813, 1350901585928695058],
    [6824780188350452935, 7245766136057302943, 318322434784165459, 2611027276967647829],
    [17736047982276445157, 14527801364222387013, 1538968978936094296, 8489306112180934],
    [15687166933104559804, 4381444524005565522, 453002443444112770, 3085488722791030884],
    [13971473897951628674, 317279560854096508, 13006693576816434053, 2527496279658122177],
    [14322485125856393020, 16357696007560316955, 2456875793322436434, 526762440876267150],
    [13000724490431024373, 7094885989379471185, 6514183318519692768, 2499790616870874390],
    [8882335501553230098, 9260686678042329071, 1968010383949404310, 871728281809119905],
    [1861964233949895542, 2693584492705116869, 2385640749334976738, 3465649128101040726],
    [14417671035535874626, 3152844296867646341, 15145019333757972530, 2021948902353131088],
    [4227731946697554169, 4588148433087065751, 7655323851083034607, 2913435433441375892],
    [3559468912050353455, 15786522100724236523, 2252419640448359682, 3130727865682668048],
    [14019434761204012794, 16461756368644007953, 16800966673959881268, 2247567879440816792],
    [13266621737153536371, 2494925052216662923, 8695102881428015635, 2708148783000035673],
    [14309637886920457707, 1065376924049028076, 1839855123529523500, 496347191491361482],
    [10457203391999642594, 10583014352253810910, 13784926965581196424, 1220983524752623480],
    [4232070724788605187, 967324878026896701, 8409608263866777430, 1693293338775125186],
    [14232340393711425040, 3385477924939120093, 7518016016587794026, 2248425595646820493],
    [15705402474869205825, 11438587598387338385, 6766466695169595340, 2782328156168151647],
    [18413092378763017318, 1084540603256882824, 12803171561811584264, 526713864773177295],
    [6744995174328326469, 6531884074846416641, 15159148471951284599, 258661196671834803],
    [14763718686057373967, 16261275669012489344, 3671843517451159722, 3315686989696577631],
    [3203351309334686352, 2120107836807247181, 11059858528400336623, 3091889667338566729],
    [9189791904809559696, 9785083376846761887, 1223863583683642332, 3170216258196419594],
    [13995668115004037632, 16683921985269524370, 11523286797720224529, 3121192016911769373],
    [2800181423104048062, 1477051462423293163, 7123681082215551605, 2653023366224470931],
    [17047266034831732593, 8288237099256011389, 19762144298906058, 1529487701891195138],
    [18242355701659628840, 3217716657491774491, 649114048540241850, 713923743368084999],
    [8738691844355536915, 5906413834583138758, 9369522098061612435, 143692390323716482],
    [14482712644631812601, 551751989585068940, 9916496675821917784, 2103780051461579159],
    [3871197043079059416, 3757472271544951968, 10472735256334481277, 1397447697983371708],
    [867814861130018926, 6767078882582725263, 5959609345553428475, 824421106975086364],
    [6500751108449096215, 14353533206793456081, 14978072472749936268, 3069969966525792140],
    [1265697007289861413, 7574254581962565556, 15672244287706842487, 3370851194445374161],
    [2391735750778117604, 6285624068427991846, 2492336081636077169, 2025311411635364420],
    [15942742257972858185, 10853169955159967223, 3156207681706210575, 2296741585443939597],
    [17802218053543331942, 10516055117308072394, 11874105148613491067, 921249363378983127],
    [7446313370550159379, 11491491805900426341, 739335412930104171, 713141020950595184],
    [7165717753972486982, 3386990207436243689, 14315642372894630289, 433608748737019284],
    [11656602607832156496, 17344200884703848081, 17668060866732812471, 3332708298673102367],
    [6967194133246601223, 16287968603559407924, 4956438268169077430, 1324455844421545809],
    [4098366377249422511, 7956529343751784188, 10797541791886042202, 754425906230405881],
    [6528034642871296250, 2726955193961050409, 6580680638111058915, 1146665328086673588],
    [11600890074375174685, 3682184456253987918, 18034949030832229680, 3349175979013721969],
    [12779930620336237709, 11799121069576611533, 5269674388080332729, 1172783971786843759],
    [6426728181823542385, 11787327797864277525, 16059266651803865063, 3342730995160851076],
    [13571830255025223718, 7167567893532595025, 1637435361351374214, 2584517070915169765],
    [1553400458539877447, 11327292735339986885, 11406456811582736876, 2685164425265299671],
    [16092651807365070480, 710989027038245414, 9111546189571822187, 1505135215064551601],
    [2703426347855585190, 122653476869013949, 12544817232588540384, 3318739277241684185],
    [5434424160646098411, 9291126488178724674, 1979121655330399928, 1376378508449755040],
    [16677458889360759545, 2020534325022413390, 10059106811417011620, 2750435972558650289],
    [14139592174071232383, 13990840552713356244, 10855208567260008373, 2843809287794131074],
    [1525987185674946380, 12110813713267139865, 16152401838971402949, 407102463773860967],
    [5843913314913349582, 17025118863174608068, 3212448687238437656, 45784422093024507],
    [7230209054839154082, 11428834589687791578, 10429995232722325034, 1354511920989531394],
    [10191693442950565943, 15278589947022501123, 11115973796748854462, 2711267759835569346],
    [10011666499238003928, 12709686854927959450, 3500221401110737235, 485621136109531790],
    [729193546685968315, 11647296630498093251, 14952804427764317303, 3410911406315862770],
    [13720021554425436416, 14308377425486364395, 3082354318284616293, 1893352532018060340],
    [10550110970707988802, 16247520254077532957, 17465380369477758383, 223789766758151249],
    [16171094022839996215, 11775898686127355643, 13701588649124281338, 2952493760821624442],
    [2189576861656760843, 2230806463717356080, 4647908073051276522, 357768113063095939],
    [12234535318766248293, 5656637554701620835, 11178100677030530668, 1141418213218038525],
    [12065826255699982211, 8773243827696166301, 4595378707556749576, 1043123522889308362],
    [16885589697923616605, 11634552637350884178, 15664644428926863428, 3329909039483257167],
    [13025030947557823881, 13909356583907617208, 12661164674206243956, 1071486407627715485],
    [5397019271223342659, 1278895403037743868, 7185187639155806916, 2370082059019701508],
    [3280188907264719318, 5511963215258495819, 11179265156384669574, 1918737588225341221],
    [18205734026942846383, 10280190886116883177, 15354529516243955231, 3123293516966345837],
    [5749965055647716277, 3503971074749701565, 6001437186334598714, 1227205690530794562],
    [14990822588886777932, 11556314439363936570, 16826046328887315404, 1377516720468585376],
    [3992255055472802662, 4718801417732652437, 15892431274448373429, 3462942723656776885],
    [2729294205105689885, 10914817454091528003, 9663944292913059192, 1769388116895722908],
    [16558658559943516796, 1765617104941955775, 4451721037385319390, 1716752739634815024],
    [17533171481335628304, 17882845972043063027, 648595363194366391, 1524715412939505166],
    [6937606606567072641, 6764113897486346016, 2872488320430977823, 2816565042368587743],
    [16010071174089668049, 15337143268126849828, 15742633128349521620, 3277864674362194582],
    [14124117701732643822, 16330574361591910746, 7315065374604240215, 198487001829225549],
    [2954149453660429168, 13729929323828080532, 15721885519112795138, 2231522009686912090],
    [8288459094380742246, 6140055792362468766, 5877997478096056301, 1756988686842850504],
    [8858977986457642469, 8412418504215210742, 16711377784808391787, 247956833671063596],
    [10072409588780220675, 9902858375403893512, 15322027005718875127, 1175439485549303985],
    [863915323085650660, 13548020277829362047, 13004113603212820992, 2336587371608153680],
    [16242631378735794143, 10065416347186713997, 3563278043259377259, 120086500453244505],
    [6602088132686153977, 8639258814369842083, 13885462838253699743, 2254792101464376307],
    [4127356144581739238, 7248520062335629357, 10885734554621063868, 2810704322889276109],
    [3748511485130899527, 13967527233951082, 14851099878998979849, 570157071537896474],
    [5567076549001842521, 10133046269878474718, 9754644710633874944, 2472552432989548112],
    [17717877124780890014, 2095626487478257284, 1220727256011748642, 2741956089731173053],
    [9460923294997782310, 8986612017718187031, 10553601499061099797, 1561549309714121284],
    [10208146317694091674, 14610117532763325951, 13815134924209677541, 681485524008444916],
    [3234611012585054810, 11586566521304840407, 4572833109592081546, 627082460851375297],
    [2996087805348131525, 8253678548503362941, 2808523553340777034, 1834860665372162586],
    [4311518679212439785, 11568138413173524043, 15009701716215378219, 357364506709141053],
    [13030156178924430093, 287796653419313006, 16694231217631451567, 3148634356726220132],
    [9041620436378929539, 11661758237277531116, 12563913921135453270, 3415621194826607708],
    [5797755735548992835, 11044301290621867682, 7202949685258329138, 3005424818578201603],
    [17232340527268833102, 3348966431533782730, 4208028098701623673, 1921736331789849871],
    [15918640079409900067, 15016500279574775556, 5670021999207479106, 1155549285411705210],
    [12085678400663392746, 3408907555165010645, 12655165197404458009, 2817905624506234106],
    [14906238167926963062, 17484884940452149173, 15264932589616332525, 1162468190310108080],
    [9539455980700196378, 645567278060677975, 5104782134756908103, 1425004466717946048],
    [6921052298818010271, 16998422313048130201, 3087824602288133118, 461216128892722128],
    [11831017419484492185, 691798465595563505, 4286929886083702499, 1600918563104181862],
    [17772677096514475670, 13179320502753806736, 8170174353071502049, 3315159052784577105],
    [16847912727429365623, 18199801285219656883, 9244462352320807893, 406709864935235935],
    [11914585535276496050, 2105725554308759959, 11991583343813895146, 14341731984714708],
    [3583540885398087641, 3608992791399267414, 4407085420732776772, 388459874229867645],
    [14729950382775212029, 11360255875064753245, 16932878167932030352, 1639425289092647221],
    [3723697112680987026, 498792598364897463, 3177563406627917495, 2129397700130940221],
    [12872676253804891620, 7121845962942644154, 4894394701552426636, 1918993166900705656],
    [17965997204929668828, 10997941017697413960, 12035168152739226989, 843655520375470098],
    [7985392367367306302, 15540999139315200138, 5424236751902388813, 2612680918567969555],
    [8210543869570635732, 3861373567277289894, 1115187736305779657, 3478399597560481161],
    [7920429618933451197, 1978581140215615519, 17125591247194094595, 643036428621599742],
    [15649698692431910319, 14504215126926216262, 5357025892113041448, 2669705129272637858],
    [17970036748285311293, 1578219187167360147, 9305217512136618718, 1091478850819048217],
    [10188751573375741197, 8782545993383910750, 2155244715302414748, 3384081035481499715],
    [460303064184793873, 10647547840954512386, 6249691814357990366, 2199033663980215776],
    [2286398375379392270, 17559186424703167242, 18356935892245565455, 617625392568657632],
    [17688857697129612154, 10319890466048426937, 12710061816124651325, 1254387462854472973],
    [14497357397228606630, 3023505892837487418, 13422944157992179986, 2834316106956839642],
    [4200158495418382021, 7079116391811670070, 1409513788984222926, 718337893868526200],
    [2160403415694912843, 17512373221810656554, 7368986637451829972, 1170946298772308155],
    [17200210432169592138, 5359304831892142888, 5436602975282441283, 1832545169740161969],
    [7171594783822389447, 11891317563255614582, 12164409417511191701, 3209529992088224850],
    [6041009570941067669, 12123932742225656294, 18043222788049704430, 557687564853946284],
    [6845487624250603887, 13775152644424720034, 10456452563185029164, 2622398450998945645],
    [10979473477563311269, 1343704646760931383, 4660609191256935700, 2775082226066977860],
    [12437474514675093419, 9054288178739247637, 15433221988514504013, 1645677414571516125],
    [2666311339061747835, 312905169666855130, 14874157345694400014, 1636313516146891228],
    [9723697925050341130, 5207197621523817702, 1645261588626518182, 957546114450573084],
    [15256931670044309882, 311444627630199274, 15408124601567432602, 1945476963147988322],
    [12570995596805459643, 11149274981579221903, 8470239453706483420, 2871743644035476486],
    [4601754973107108361, 4915402816346040687, 15138925186236049799, 2873787003269142326],
    [4360024720377283362, 3098506859488112855, 11799961391881830724, 3436771117826692959],
    [18382871894102835174, 3567728104838004546, 7825313658570972942, 1107618093533025030],
    [4462136958595915774, 14810114459566142325, 18317263619154849338, 3156217776130076919],
    [13412079460006817821, 7932444474770482454, 17357467289728435445, 25989336782775194],
    [17385956994244064428, 912343507081337701, 16790126519224943947, 243942745823652655],
    [9696200603475094057, 14297117312723808356, 4542312832116843324, 187938988460511673],
    [1427443448057557388, 3096630355780984697, 17102596803012664341, 434867990274971000],
    [2472788472058201326, 8464797441197002100, 8092642845228268369, 2272713577967511605],
    [12199201232131306296, 10917098099574065298, 3777585884665073411, 2393806942442692028],
    [1082435150667080236, 16936515571754165393, 9942459359698485611, 2986209768337270257],
    [1631550222238205870, 17419860270663527957, 16161349789992263964, 1114080830147201121],
    [14727394956503333655, 7647870402948474876, 9591579021877168078, 406738958261869393],
    [11004306178874754209, 7532521393471089674, 8909983218022978829, 1548635119740528569],
    [11778394824823611055, 3827396956034971627, 13014360416302622033, 2844765996011241052],
    [15710870102957380517, 13372793903978759496, 10161539164611996916, 1484227563375842943],
    [3253511989144041208, 10286268901108823964, 1339698026467506711, 2309179906467080026],
    [12328309678359299962, 3884547837962992234, 15956897839862471548, 3343981952072249648],
    [5229559445618777402, 15725649080842846051, 14149848485872983426, 712415511845129650],
    [10758298649673452953, 14562898195868898774, 1591981623782131587, 746261823930370615],
    [15715877366808832964, 8783865296633936367, 12497359636483158935, 3457360763666719390],
    [15548034576979335019, 3297104575359684403, 10628683522169580741, 2250308858570155141],
    [12769938454405880616, 76225158030503022, 761225897499504178, 590039234078093061],
    [3887740163165070642, 18131098009126138055, 7794369256329987812, 1869156975186646287],
    [15679728339118244772, 3734147062098369598, 3905823991291953215, 1901110971459799984],
    [3635294780327039627, 8443869938811549213, 12989100825836492131, 2416879889781486743],
    [4070604354993349627, 13301885588638811559, 12083362586041164849, 1651954561739259737],
    [4934454092369498028, 14292724424964139597, 3889543856243567183, 2138898029795333684],
    [1544086589505137944, 4125496705363123297, 14282562843706395961, 2740569884212127893],
    [9742853125488434741, 8685215389013796598, 5879003788720804118, 2071499564458427089],
    [15770236629826447775, 3152165360517460650, 11921281393258066471, 266454689742976142],
    [5369144059914395503, 15234986482447818198, 4783195278832372929, 517724067793184085],
    [3814087779062663943, 10653378927824932307, 3891442322239802139, 1728927785929341714],
    [2103142843902381341, 4415382364252331227, 3978080766098024774, 3374240500093746184],
    [12123296026613472281, 9239066862879851099, 10565200643355211784, 2803556302972550102],
    [1896483564964614315, 17071919949795688933, 7701739518138809739, 1682373624618072200],
    [9541933334390366677, 3859855902563935869, 9003628556310053270, 2539505720739495093],
    [12174098858613991726, 17655873709339953065, 16270844721466458507, 3160809275912779253],
    [11973315841119458777, 14136629926455489801, 13624377912897592092, 2432755845368592646],
    [9994603232746054649, 15249216246537290772, 11617054891008399424, 282668720352364985],
    [12684915833459204858, 7866155350713353533, 1599453701010207590, 307701540339946743],
    [12739919328243281450, 17700503146150705348, 730045007988404541, 2554921757162266084],
    [17923459548791072931, 10172350340772267478, 16848557177881262425, 1777459597802242006],
    [7755327695639459171, 4718602153351211936, 10862822451749221215, 296470801433996780],
    [7275862037782827749, 16155972845048747739, 1940768291263385806, 1203518618680359787],
    [41659021722799083, 6064176715142999722, 6704325887188104634, 607421915751149961],
    [11766305504056836847, 5243407376660635611, 17636721136614182246, 517477280969091665],
    [18157635359882527863, 12042913665971733587, 13273726932242323393, 1431825098449417058],
    [16783599404380946564, 7619167545952888663, 13291444271924191444, 1115611826459687989],
    [8610438642278015107, 7557387813467466834, 15994370624468543128, 2590378820744646105],
    [347526550964668653, 16318537857757410820, 2689866228591969545, 2756258807680777392],
    [670215735976435045, 1763802393625382207, 5665702536634208854, 3049038550530001336],
    [4462117934834499493, 1522967423905613136, 7907004837235700596, 1304178798921407946],
    [3344362628338557240, 3063813522004951167, 5215433178348265956, 3140825937925457903],
    [18012269977969843166, 11073700855329941255, 9820241912702954279, 1625171505550716116],
    [2857548155486491705, 12314222081335857623, 7997779506310500011, 2972339876445390107],
    [13816341920992218720, 16518642002354731973, 15314165747342537096, 1192681094896724414],
    [8105153419687919766, 15943343029860366689, 16836452957570023396, 2104570331702619035],
    [4259938984896393289, 11318660158182337050, 15960177106017416158, 3273472819590373138],
    [12415034806875598162, 16070759600277501487, 7356104559126226342, 1781863562875431161],
    [458174099081721577, 12596874126928811758, 10443313816219205769, 727155680533396473],
    [2881027286703133436, 14593474573394488820, 3241085289412390504, 1137702525576413375],
    [14214433896923210444, 13980247396492317767, 10125087832955657660, 2891924525192877027],
    [16567048319152331590, 15943078287817350631, 8173220727296186176, 563647643921893853],
    [14758470906778520204, 8346201552513086235, 4486200343099909056, 1461852694417830502],
    [14686469209534660557, 9638203160769538747, 10607694516788992078, 853686627467949395],
    [3658344974613756417, 10966319766657374605, 15718317336942552244, 2376457186412731974],
    [5667487200807133276, 13458749672516036775, 7974179390021554565, 2781421296267552139],
    [6259647769554817237, 9984479371104607734, 9438515009739374668, 2917648425728945416],
    [4332025533533283082, 12134068119045318261, 18107853130181769861, 610469971050173567],
    [13732275376307726314, 17853918926833803162, 14022829219289338711, 3331620067071824146],
    [15901471780821035331, 7106386931886938446, 6163983448551858415, 2173142091002269882],
    [10371076274221242246, 1788283161743712308, 8788593971262168401, 1881800292581007552],
    [15996617127520677256, 7379036678904306471, 16182045186045323134, 1088301387308420281],
    [9646073397720150423, 1004915380194510810, 2086894228069354988, 3276412240752781377],
    [95788382886206432, 15111938178269082074, 11372391320432716809, 2014477211156611530],
    [17227520441770065861, 7111588988112528708, 18353620068918789153, 3002741298553123359],
    [17863058366149521320, 1674420319640171984, 14473572683246237189, 212988737871020548],
    [11278488961618254494, 14048861847294156346, 14245809398355871352, 2047213762762205922],
    [9427536102679051552, 13221324940527332183, 14382285020785777157, 2723428953566991173],
    [15155612717606921004, 12267970903497198589, 3421804177604393217, 1565675640532090618],
    [12542975747974277768, 6199503185103696968, 7059433141563172877, 3466085974376424385],
    [1894942336855634773, 17136099853774303689, 5846855795542847266, 3356807842751976303],
    [13511896327097018481, 4672738145095059471, 4232481178648689524, 728951859182663597],
    [2340608254296009809, 3491757906340440658, 15910829081798096845, 2809877853425416592],
    [14870274573374594379, 9991159363662596893, 15933142552242518571, 1805573539037903212],
    [16833987079581305635, 6360920570196336352, 1766502222159976462, 2108841585721468794],
    [7269122656464150818, 3330532546143194496, 8108781523710389905, 2810961406614392974],
    [3202674504349133907, 876541164052331906, 17393515513042222985, 731478686148497401],
    [10097258981451001815, 3311019888661647404, 16089547308101094404, 2689180390019645493],
    [6141329201983172780, 5478501406074733286, 8215759084119897496, 1713092158569480242],
    [12773629162001079422, 445542855641321552, 5684915712872607806, 1002698857244388385],
    [12814670247616947756, 16218990532192607242, 4567454614242945000, 425133529587594495],
    [9828017296736807984, 1595227336819090492, 13308741212777108718, 835541712917744427],
    [10484606797393533242, 12349236623971234759, 4849743987809891776, 973885362291414352],
    [16606645470524292000, 10979011632535460452, 429462351597493134, 3158228702191258016],
    [13583464631475535668, 657744468647320550, 6801738386309386897, 2690656553429402147],
    [16909959447587401071, 7688186876465270634, 7817410688094459893, 1275672154942451201],
    [9626033216054662861, 9871624290782477488, 13258451143900655519, 1600097151674619750],
    [3415259849496568375, 2905835102081392114, 6012003419192156936, 1723069034072238371],
    [17668821815219953040, 5121291023181252831, 2609582957921964801, 1837623122173790410],
    [10695062578055633273, 7279589395947202005, 16244695071364365960, 3071908031975018446],
    [7391195739736531309, 1372472704524045302, 5213998748953870698, 3344532961852090087],
    [15748099095829238053, 7767522010014718708, 3065605651407965031, 351617303256543818],
    [12902286880647834328, 14383410146620430425, 9564214541622294641, 303671405092171235],
    [14774526633216479380, 12356664508418741225, 18048462923775226326, 56715650488262783],
    [17565729927386855239, 9498327325887651450, 785544719335553725, 3388053577460744216],
    [10835807036475738001, 14226638786046860009, 13864690468063831177, 1515193945539851725],
    [10805166221539079950, 15218038873498682190, 6321401636855801013, 1391111876273717944],
    [5469416444157877998, 2080320345223924230, 12655415858868028694, 1662218109497704987],
    [17302219204846354814, 12310799815801218398, 12860108267917043457, 938769747538965011],
    [18313792873716947104, 13035068332758556943, 16299153804092884180, 967353085553389812],
    [17775209929385858270, 17355007006944120326, 6734566192053467418, 1997324934149768795],
    [8538537165963680165, 8849652852960683322, 17388457191238611044, 1102002618389685441],
    [1510174788221356177, 5994670188747632235, 3086314813159287010, 2791489935408229742],
    [9916053129454219083, 6316806119567709615, 985867364003451411, 2141288741280138944],
    [10364410024519754456, 2496028017854782980, 7545095394975568861, 2603629135832631264],
    [13327035344587132124, 4504870341388368854, 3992529345127548712, 853950096400107822],
    [4714851799746695205, 4026992862592362476, 16392127452327387783, 2760232743714338191],
    [5194655813313004709, 5411839204352674745, 3379391776674032085, 1885020195284297404],
    [13921617479200714261, 3271559180777727183, 16685108282415065836, 1486757854351828683],
    [9644673545256794051, 16250348303765837726, 16984502772570729350, 2961503161907582469],
    [14229745926831666326, 958577910011463772, 916617163655747591, 3165112560235847018],
    [9290673087431629950, 1097202185972398085, 13757872415731404603, 3365052896619721147],
    [3354740865081395390, 16451889456348048832, 15972031325697878402, 482231569753243328],
    [7020104380723724197, 518611838615307207, 8797464112895771577, 2977256028879737573],
    [13720255149859909274, 9768515502467034019, 9016260643735740761, 1117052400555316878],
    [18059906263330326055, 8442722712169033036, 3845852325466901666, 1111384962141811010],
    [15252790451622364187, 10722208599313233026, 13356582887826422016, 2761167629293298041],
    [5193964353392335460, 10541388452294306400, 2504909801267508765, 1873477007315669181],
    [15773147603407397647, 11625535580882979532, 17817484620810171896, 366186923400762143],
    [13682414027140675936, 8012188649301918035, 12747241279808204349, 2860437700201228167],
    [11409805855218065865, 9724694225136344053, 18211995190016023421, 238192740858260729],
    [16278880332341285434, 2176624303158464902, 1287754663681093410, 1464702033804331470],
    [17397684255390046150, 670415526094212642, 12596065686270090347, 1254264701462127299],
    [13407132904625225113, 6838368778535529520, 13032761858924939620, 2671227922868464040],
    [17755314860539806544, 15883684533064610664, 15939986585644148353, 3463481222692234486],
    [17714726601217648542, 14614081016742467178, 291820912198143638, 2112409769041481751],
    [14716913464848855722, 16779152652012277196, 2890737026020182684, 1571135809400172946],
    [949334377827793020, 4985007328708578400, 16044387769285209304, 841757691771636577],
    [9669969524706920183, 4167905843415978707, 1736228257684630689, 677475833965597437],
    [14823924769922025575, 12255034722054638582, 9491903672781757571, 2066750900893493231],
    [10751741175472635207, 461740621761024989, 17157160439858236544, 45822712418179212],
    [510238599448930244, 6858501535500269078, 14457521557846037506, 1447855290861854811],
    [12074941859770877826, 11619854855480486173, 5635466035912495747, 372772308163772947],
    [10214215107320852173, 2740933514800230856, 8933342887997946248, 2497467905196003420],
    [5847848218104416060, 3582017521864744155, 4419290280435838244, 2033518588647088228],
    [5048311308627593137, 15396400939219580966, 4540430857862861017, 770787076451700774],
    [11312870262099854028, 10347348814567028315, 1174772606550950936, 2425899082479619330],
    [2449394744192273358, 7680498994442021789, 13948470847498688234, 793915589385654194],
    [10309730602524551910, 88984995856019897, 8284493631077759372, 2088375344595251219],
    [7074764404295513209, 14423217285010219328, 6561847296016098359, 2045645289793538703],
    [6450970106495278199, 9648433558541262035, 865256895004760058, 470388520192059949],
    [11822485625250096483, 2142787904014306841, 15224255059870949926, 975316853631046464],
    [15855130464505059829, 1293143481486329546, 12820992990019276680, 1751012839594870448],
    [11029035122586288143, 5349399387025877083, 17605058390614662589, 1274198550116071178],
    [8438553997196975747, 13318822366413304268, 15882409471241379403, 2985225634305548462],
    [2920959158959470779, 6933416252510527240, 4933435602430695051, 839207296715428549],
    [12323820673845032671, 17910211736092609983, 9416566015515234934, 1837078669933614051],
    [12855863177851115054, 2273752546714791521, 2806558341724854140, 2991842757968854177],
    [4164098346467414081, 17682125954602705158, 11503805914982265268, 684198796247223041],
    [5149956992014959611, 5886865935802635182, 11898808571454781817, 750248261392408063],
    [15830279162999819990, 7383814100035026186, 5909833990931480168, 2370741752373469526],
    [8577246516941033648, 302945499247022605, 14512898134866186748, 2848824947449335723],
    [12542495337056503409, 6901075479736663146, 3195208111984347565, 1864316212463003669],
    [3755465853682114409, 11304654678064580816, 6042041178231995726, 2239865716942102839],
    [1693329657337462731, 9877965695592725274, 14914403831577400702, 283598113109555901],
    [6288376300406334384, 17897703157490270965, 3714208640438468487, 2075596081667315917],
    [7204574796223275937, 14344239538346961280, 16162559391135878750, 1208880427472827537],
    [5734804445424249372, 17809018914259376530, 5226474330914939906, 1536101531504655278],
    [12657591677502131210, 10570506908474216034, 6808121553371122353, 1625562875230132116],
    [7616695898022820461, 14254079099131810937, 767829830291258615, 2727382607699603151],
    [2390397017569281375, 15014700178436979699, 2885813906195100730, 672634049512558001],
    [2618259613787026236, 10898341438921729483, 13625451087990462754, 636246517942405604],
    [5731604312728611688, 13852010820082836058, 13249591540432188736, 1389802712701637683],
    [1774240584365365705, 16593051814443545920, 9151472242961528195, 1547316042734208020],
    [4285241145586495638, 8895453484441153718, 9528000264395778602, 439778654995635045],
    [11311892868949259842, 10357956132379934094, 652022165813926797, 2726912928120479345],
    [18156200413843655416, 1394755542941085928, 848921325864248929, 2522509210488395090],
    [16440580783929799971, 16115505468535930248, 11502561122469742435, 3272308176090519228],
    [13448046248154173476, 973844596368950646, 16999724509184200977, 136904705053187831],
    [5091788240945144552, 4338131101576157927, 11070588226539810907, 473130362581837399],
    [7240191098061685223, 1392321535137315701, 956905164060756807, 2893884561726648789],
    [8999224483785579890, 8207409966839333726, 9024162352347481344, 259021844899231760],
    [7036596077319099607, 14175233781271595137, 12293890038916827829, 3260092606160781407],
    [6478657434195737394, 1584032046788264856, 11277197509344481241, 738899074323012336],
    [179974311748839169, 1207151303001972880, 11244629614578836802, 2256068993855425033],
    [4349513836577685039, 1987847161735596340, 5666416801466330014, 1329783214747354310],
    [13046675260962944782, 6012654335961526891, 15244575646475408663, 2519207743770759644],
    [13067067388421919465, 15396397153976147759, 6271673940342633036, 2530114996478023325],
    [15110193975803284658, 12187327169975602666, 4142379011095833566, 1137577881681505963],
    [7683624015269497722, 1494398916246871381, 10964049287331024368, 3028613863704238904],
    [11325237712452076839, 7491728421078842105, 5343192903026527099, 2330070523538952203],
    [6692831571025559889, 1836048073311004645, 16289084954898439246, 1241749923929750140],
    [13712120858502950070, 8574882981177046124, 1606411886793526832, 1395930928304402697],
    [561021569563764482, 6800255848065987545, 12397362515886676172, 1368748093691650165],
    [14456598790441342526, 7882977165602651718, 15998908508613995115, 2663989947701092439],
    [12476851128466939379, 10761224849887874905, 13936314014288329686, 14252457365346395],
    [6670837706759988580, 363554771126219862, 14934171788183148758, 84013832114922281],
    [4289120085110694938, 7786687414906545122, 13670372531797148897, 399522274681119678],
    [9510569947914100685, 17317182589407286294, 556709903712631773, 1848075688901390810],
    [11546396471806161658, 4434640784438538025, 6277179395645230410, 731011405126221056],
    [13972045051660920229, 14451485418506041298, 16220688464115086657, 1690925631599510955],
    [4811005007095409844, 6915382555967230198, 10921648816176386609, 1461267673942896950],
    [44200578190798774, 3593742180813310776, 6697418988264301467, 922823444456185506],
    [4329267083004002237, 5226473586033711167, 8827274671845996139, 2054591696309029912],
    [6596506945366931826, 17348485796461245630, 16312749212603282537, 1827072014178768531],
    [13657756730896903907, 1178820575811161120, 12873065430524307253, 2617986919929158665],
    [3301730480803302057, 5790190113587085918, 9499331228491806540, 202941350629694422],
    [2825845822746933647, 4083672960881367358, 7143689122330833623, 1917436843180550407],
    [1242413701301550602, 5839866523253998113, 2774308528311005914, 252420381614659867],
    [12155090307682506601, 14445759665145355107, 4421001587608673828, 3407032181566180974],
    [7311081270123289271, 18299352213359180863, 10684671941660264254, 1330832509288203947],
    [16954759133281662264, 18273173689868770537, 15547894975993101979, 3417403224340468124],
    [13912470163683252757, 17382382368072636582, 6903293014691060499, 686719320416375372],
    [16940859723946566730, 7750444201158853135, 13740731192033776240, 2351434596611888756],
    [13649086015585712653, 2728794397538123566, 6954352832529225602, 316981043182118938],
    [13074385429320387422, 14619452600264629395, 5502304177255937279, 1065222210408434509],
    [2783209612023331880, 3095803601190932117, 13996163339384083932, 1705044249993818907],
    [289293896098377667, 15429902405062121097, 13908108838471592962, 3428147788075205638],
    [14437450928289936610, 4455515938556810152, 10199054257901100366, 3010104872396794891],
    [1984800807313219797, 16506337062254361231, 4156457232925780269, 2174742591850703552],
    [17618680955289686862, 2111999560654753954, 7708634848373819875, 2071883544978226101],
    [8971188083835816037, 15070092247885733956, 5147440465301996001, 285403792462882230],
    [5905255224377718019, 6596806830009180069, 5724887013531749332, 2760515480021137072],
    [14367556630219798283, 13904853626676530173, 18195228092311507634, 1697911585302352682],
    [500421037076267445, 128637893978014872, 2999885859978442821, 218875874169279411],
    [12642042561927122917, 16486178274058824439, 4951335866534819138, 1586580590559102767],
    [10365974799445515111, 16707414502899764260, 7486042909045798204, 1220112222479061906],
    [18209102255223293925, 6139802999438037346, 10164953930572474343, 1363105040671206639],
    [6518356325714109360, 9055934033131053835, 8208361424058256275, 889707519064705978],
    [7651878367792964857, 17667121176636917194, 8758076938098410299, 1951605852691549631],
    [11650797090302605030, 5684882498546945293, 235823497990204897, 939061891346391042],
    [15698720631649681748, 7985482783898016014, 8692269835459603042, 739194682988814542],
    [2092387014417574116, 17113657284062369857, 2699609665304564886, 2263665853339672602],
    [8031575194210634931, 12406655467572233913, 10839608275068662465, 2046686587925514748],
    [17446956831545774866, 15688367211196298735, 10289360580560148678, 2343082181563421214],
    [15528285366807337060, 15702500753104067487, 16688075423343131332, 761010164117305723],
    [8580887038097391623, 9532514526603288543, 893312880546656499, 2763319002757842750],
    [10191145428715404616, 6058671224386986398, 14918125125132814056, 2235162442880489783],
    [13318934264039227462, 15438168381154362849, 14521278551552768506, 490928575581378840],
    [14685808997270239569, 2615783508545915965, 884046397857887259, 1103302908080296729],
    [8457488935122243621, 13832449927962978517, 12662570723691765899, 1025446784524112976],
    [14759462780307699761, 14320555371777904444, 11868413213815087691, 2520744755955916363],
    [7703422394001180445, 6397953920840613188, 16656365290598181981, 1817024161422634022],
    [10616043955978883918, 1673776512593557169, 5506689080390751890, 1283689877294922194],
    [5425676872736768680, 8613305785695034309, 11572505885085663012, 2134854841308755437],
    [18011105194954945398, 1257642958935144126, 5477058415955104460, 1906328530918708929],
    [9225142885808008387, 14209927661509871952, 12309639487827728680, 2457615589870706123],
    [17482628749141486555, 8755162813942719093, 18162408185402137919, 1001252599476797718],
    [14438792011780264636, 17698291751370131287, 9307153994700739701, 2157281498775668901],
    [11988507673941768132, 7932670140067359007, 1595139117199019178, 118965809037825994],
    [9621020558564505901, 9477888585389566765, 10781822932238262850, 2791750974592492227],
    [12668160742798260530, 16092030604649129696, 11111114394143178695, 140112768846556762],
    [11386025362751550047, 1212611069467186262, 4760005119499902088, 529263863633285539],
    [4214485444279209496, 10055043642469021098, 41405060786146519, 3344426391216360083],
    [431616080067627328, 10719094117797767285, 12807805464642341801, 2436966472020668590],
    [9632137979349018995, 10930471503204391975, 6367493514769417280, 1262817192438462718],
    [11198040870413698814, 18249649852860724270, 13034722786857540217, 1795599043158161921],
    [9884041871564554670, 12940854658026539673, 3107055592703639112, 2915202672310636779],
    [12290498456267507864, 3177488421097070925, 8439627335302449100, 302133587956078767],
    [5144691426661523221, 3727920625024847287, 3552683226954238656, 2053550674325371238],
    [11784053326304482168, 5099360224099613973, 7568082401442831757, 8074427007132761],
    [8114064112526671874, 12156507599033617534, 15091109975647651756, 403979986570750779],
    [2874362516722088613, 8958619311795075012, 2208711769033597977, 3384434317116392423],
    [10485601699839528312, 17793176874639236649, 4038582459685884776, 568125304074650596],
    [11890357780550792471, 18267324196293504843, 16697634171084013753, 1104771145294825590],
    [11049416138699307747, 15998305278256410236, 10784381344942799102, 1707315113693379595],
    [1239528654565021659, 7030116039967412181, 5282251228756715592, 2554189359011938575],
    [15793290561559770025, 5585635653035115260, 17449418647469368826, 612313803918210940],
    [2760689414810367277, 8291892071270984816, 14840400644309132800, 3211546157106988021],
    [12776631098258242510, 14484094302857573445, 17202948241545264460, 628666925664155056],
    [14917335562347822061, 15231598377895623569, 8129915552733675710, 2396271210277205165],
    [515785180926058829, 10462041153209159691, 2641452603961482941, 2115434353014544231],
    [8423673294380830628, 9728493753587177753, 12378406186287602081, 1497824541269642746],
    [2267441780447558452, 17188460418028152752, 15989345254334302447, 315941605472482750],
    [17448982546560231451, 5722701130474110934, 9777341093023970653, 2294758859105278211],
    [12273206391206738941, 15506106533746421228, 6552553275495068423, 360859850371125333],
    [8040825456157400245, 7679409573823114040, 11773121182243679398, 1205459207139616419],
    [199964647170694245, 7676747812699517067, 1751366223360990407, 135077546605358836],
    [6809361214987304125, 17088240951950267494, 933456480554565006, 1905817730933256286],
    [3719645316459988625, 15640872473216766787, 3956299691426268507, 2768362694557562465],
    [5475083631906503000, 6269865010807572446, 4900714182397275195, 163411973095671476],
    [10743244975362384422, 4433563654463834047, 7325992652614989552, 3072121548688413483],
    [2253941063619375063, 12358409111428225691, 4240982266737814314, 50055603885225530],
    [15981359269342790863, 7002038540971958880, 2509722463834659752, 2625457285016512512],
    [5376792042794941344, 18060636623884485586, 3975685503171810467, 178182100785022136],
    [1804952626058405352, 7997375753359665144, 14380147204043282213, 3127676443511507976],
    [5015932972356789076, 626564941243683184, 2359616548778927879, 623160622428394590],
    [1062769753251486205, 105092768443308741, 580082380936936381, 329265490418998207],
    [5421640744709756012, 7915283618462895134, 1807731003614997581, 846210609010266207],
    [8434369352407599120, 6336407327135449839, 1693096303921423660, 265824241127925898],
    [10882395081012833005, 7189738399124025992, 7246275184733238980, 1293196673480400887],
    [15047489707191571630, 766474947572293926, 11329071988871478446, 3392608347170606326],
    [16798283173851477675, 5020066564471314472, 15093671440284244686, 2770129325835463204],
    [3878863259404210819, 7521141655939557515, 2585209981697507984, 204738590471182583],
    [799396805893396417, 5086101223869021491, 7595270690615334035, 298715401708262535],
    [1540525995074807127, 4957004482682426481, 10907175162316986674, 59950689070306086],
    [16651204772587276646, 15252007719355179235, 4888339255020683900, 2855903592041122038],
    [8463514264417677007, 2093599897852391197, 4943230212254224683, 2053242704609557985],
    [2126545638529390934, 11897432474795056196, 14182560997415062784, 364364735927265729],
    [6956530850150486987, 8168470133036169916, 8092230848340423317, 1926250426667043136],
    [1844715589455478948, 9118471246652610130, 17627605653279442927, 456587841755504504],
    [7489388837545569461, 789649215528439091, 16946707153904501181, 1885435699159566122],
    [15633832649315617062, 13780823152356288598, 7407535108190393755, 1556383084583810556],
    [14469982814540413474, 6564990245899570613, 12614632876498183263, 1059839032637327174],
    [11471459007232252004, 17807240548355108533, 12533749058682685857, 1864955309598432945],
    [12921189377820400970, 12461819463134578110, 17626874892653558900, 2310488800512681713],
    [1725623834094632731, 5783761648490859082, 8945257079499659370, 2360892637149943797],
    [11575679268194314548, 1043761757196903680, 8125676764964912037, 1701498943157348767],
    [15710908396377050497, 5579557277542960835, 4809809235869326301, 1408702463170630697],
    [8257313422990114254, 3004433504964098003, 3066007962005595246, 1040406602569038278],
    [8557431771510241633, 5853573862528420035, 14633621467284039033, 1453273951391497972],
    [12571517897470934960, 17213068176167919903, 15181498744093729027, 1318583136838399483],
    [2604973925545768006, 6159874461286230868, 2783371478439112111, 1459129380623867531],
    [17038022523765221676, 129267632921144664, 3885752255396421309, 2623713904837237348],
    [5044396365081854194, 16403857158896604275, 9845351959262484988, 1623011406285762654],
    [12323439742899512382, 3263577542617216072, 8104868419007801394, 1989437717702124638],
    [18228587118726953864, 11162010593800460536, 5320439150635514583, 1135690928859518560],
    [5039766532331449416, 14908920726975367654, 10263896299420469281, 896031827524206798],
    [1495389026814976832, 5880746296862505525, 2460838898153310352, 2618295948457013386],
    [14286223883643035719, 2103544815793329491, 2044430404037653492, 964316096618726435],
    [2089734381670056158, 8997031550382806219, 10943237225894975642, 1936448330993517540],
    [7103589841865172250, 6796097999212345144, 13446240818132813015, 719488009504823669],
    [17700117417968749048, 13589015748648428166, 3876729744492732645, 2018104731184446656],
    [14157479710517028777, 2381757118591647798, 8394774191170370739, 3313466564080310886],
    [9635556580553047369, 11153877654366788585, 10165564898984635081, 2862395815971633094],
    [15845805449766666121, 9195902496564435727, 4038686483787930145, 2843304904605892870],
    [9152204943597704609, 9008384664019557613, 1075913242384141367, 590483616697964060],
    [3649436059438364324, 11378283305196075661, 1960852795725257662, 1266736120182234250],
    [16741978750059630484, 15156084890269821149, 17440682036186474063, 2875628196002191017],
    [12631163823656990013, 16935015367734712394, 8813761416191260020, 1223691088073266013],
    [11622558814555604346, 1356519105840927188, 4205552584007550911, 2138427402389710538],
    [17057363237467153455, 5248184750830510414, 5442031053605108221, 2610310776927984726],
    [2841947515545414221, 6032617726342164488, 2697759964821576225, 3164412436917619671],
    [9103804937444885980, 11205945312553997231, 13853043939170979453, 2965359687967257755],
    [9947072838215415088, 8082213224525851444, 5576007229320371053, 2601989281238816653],
    [3238136684065025536, 3447021349121722775, 14487947321253748340, 2418874422959708276],
    [17285635237181422419, 9380110307281375382, 4765282646149435379, 3476067997842833049],
    [8787128915678898243, 13465110958522751003, 17035984793366730906, 2238060471843482443],
    [9881322148429094522, 7775931734944883288, 11525207562790681340, 869854550714366486],
    [14829171229626466428, 8924331625194005822, 7216621506277409998, 1244574456378397362],
    [186371153141365274, 11663623964983114218, 6046001344309736018, 1093027895385392300],
    [3388994516802227517, 16957492317901971254, 13103523606809674896, 2445396213377861238],
    [2620457162374518861, 6601636829829996800, 7098992745636012076, 2169423058063736002],
    [2055304909912861862, 13340065741782076024, 756991081760963935, 1191129864590572786],
    [11198638398944154385, 6490417836042600255, 18165468041447157594, 2362035479423173232],
    [7060224227397578878, 6550774422032093666, 17649778515927618387, 3263006303982296151],
    [2403802821214490460, 16457281479908745367, 8709484321801517806, 3307570761450254801],
    [4272388462370912932, 16264861490783999393, 15526624425280845349, 61083680897261148],
    [13264708457767614211, 5812799891901677153, 16814556062337299897, 1449086523672439759],
    [4009196664802848296, 9490499852380326507, 4624370296926765826, 467303718134365321],
    [1106054667971984903, 13985196426801267819, 15135368855526722261, 1481466562117725127],
    [3315250373071521103, 4611623002931349338, 16275129789349207525, 2148777088338130510],
    [13530490748138155764, 11105102511259092107, 3103361131903973007, 1565862367349847936],
    [9790732158413752107, 7180953806357322413, 12007427266996233713, 2757045154356375418],
    [15272629773671941034, 18272572766652238769, 14355233570669370323, 2722187084916963848],
    [1107291121742743163, 5714239268143590609, 18183405353650362522, 2064197344033289498],
    [1878561315496458887, 9112427282449665828, 6509647151686188765, 2079166186547673144],
    [9786023346293000367, 3627262962433089977, 3256311209782995328, 2691752712120564093],
    [11414280261791887302, 3414249966158464167, 14138485048685422897, 2068277170945632325],
    [6092559347295479070, 6072364960617148867, 3809389637867452577, 322625451450345383],
    [18222488666961104504, 746107221614258992, 2159642506726402398, 690653899980869872],
    [4746496969103039640, 16588175367301087726, 4651989705006311389, 2013512439056419146],
    [3685741603901624863, 11657206903729328773, 14823130032225847305, 1373732433222123626],
    [12017635688764922681, 4533971877861970224, 7940057781257373687, 3266847784543725791],
    [9887258116888868137, 2519979745703003714, 13646116723337403840, 3385883067292454959],
    [14005210833736769890, 12107009215901204150, 2168687205637998568, 1225147088081593121],
    [12359243120370084563, 14799012029030947974, 13090633693581827582, 2353646619811561853],
    [1964606715316877494, 6434491782407218937, 7086938741228526088, 327780170331671813],
    [16251449791459749152, 7693109677155356231, 4293341609883081618, 1838673300338161226],
    [14735831168962644216, 375405510987177946, 11920892444252528050, 2350013135307229096],
    [14836901068521378568, 13742714264859286600, 13121572796972362505, 3290344151728068023],
    [16652685000784146265, 12688076404069773045, 6134870970863461795, 3472082816105161085],
    [4230741053330696254, 17624925599680639509, 8660795879711835471, 1965505135930426412],
    [2563023601653298420, 1886226661932626103, 2792123902165626928, 1517781491253295862],
    [2196638578969865938, 6325901502568324680, 4607871669381362652, 1541610961313295419],
    [6692431251210435678, 934505472902455496, 7921358270712802728, 2185476415646729636],
    [2218657095104282054, 16505255850516237993, 13179974473172583539, 616100379605958600],
    [17210954442341006533, 19107046061756523, 7482304695394388540, 628503041246761028],
    [3545420197871028294, 10175810706084443331, 8422540760641808262, 1509185236051702202],
    [8819942368920666506, 2355678648448716726, 4825758938965227538, 1592516066487316177],
    [6712989248582687013, 11882979717586821655, 7799926593352380874, 1222200256461532312],
    [17913140959692290358, 16148742816791789166, 16899465059288702916, 3400063733705930476],
    [17288198527681614863, 5829515822068368312, 4626913585133624451, 1318122301427495541],
    [1713620665743242617, 6780404582845872449, 14552017219896668127, 2574837419171743884],
    [6173644837491707187, 10303751405136114793, 13151604550492712925, 2135349389777829974],
    [3718640395707410032, 12009419948740049300, 14992270561426406640, 3447544294312069478],
    [429755288162851775, 8322087119690137389, 5667196702754170115, 2087475949015424982],
    [13849983059529422768, 7318624078540186264, 18034570199541885589, 517916736053721216],
    [10326193550727319821, 7248649092727167106, 7136322739529147536, 3093473375258526023],
    [15896122584900190396, 7618193885780678452, 3030858985236255569, 2551932397972391710],
    [16058385416833170123, 8769758352206618289, 1061454989244599516, 2779140385915626880],
    [15913684392884189354, 8079906723834108263, 18294071739483589237, 2410122658444039819],
    [3574869603773914642, 2646141408344922288, 11784510626013803534, 2271118671121758576],
    [4280621433310003813, 10757457767735778902, 1519228374103808505, 1452970094562284415],
    [16834689807127656355, 5774510605505117185, 9259253075909438776, 2680315665976547731],
    [5684292735106318115, 226634946924564647, 6166446281518023658, 2240890323232483068],
    [1605906498049669530, 16964315273229336485, 930424501330638757, 799281868094937152],
    [4520032187304611862, 576959968191003472, 4544283502153583241, 996368447309530692],
    [3764640115039238350, 18085265327616963752, 461686623194690707, 1289423942402018805],
    [7035962186364559084, 8703687053085890452, 10947367521313362147, 570093752609559834],
    [14839474613733441987, 830571112667439348, 6386276262928245052, 644666390878533563],
    [5490260741036810818, 6318021056515336857, 14797663425930475804, 1186319743128927518],
    [16241410239983919179, 14992072506612526996, 4264532595949667689, 1970149378927733646],
    [13601637126161964127, 546827109306068354, 10824805350192675105, 1630583203859101013],
    [1556209918890510764, 4882198675434686023, 6970175514215308779, 3434339651401504913],
    [18167772776279562526, 9092302813228135540, 14859234182096832618, 3453217096838936504],
    [17779701241779635166, 5999908837008047656, 3277564115643436609, 1013689137017617907],
    [6161133329164992228, 9987800167767094579, 12054989969609057844, 1013742282780064578],
    [2115792111678018256, 16031615325508813015, 13119205608473918259, 1135030369850340101],
    [5567375917748477892, 13332984829667704064, 8328798906304779056, 1147937036323739658],
    [8194221596014993713, 6921234589022739145, 5208417394104231233, 1470217420493792412],
    [13873632842335874007, 14443471296047474681, 10607608484098633936, 2806100855407984843],
    [13851577623551004601, 4409871093845832375, 2174317026204583023, 1022451518373959224],
    [7120969075357470300, 15917089995975725953, 11665231856616406687, 249132720326526921],
    [12721723267109781687, 5276084066760814989, 10301391462882797369, 369511733469083066],
    [7255657130903771695, 12986570461361758054, 4134965321058633835, 1900203009247136892],
    [1707328586312278804, 17345159236382927822, 10903950248393290443, 1839198609858908087],
    [9446586622215329134, 5436976317071900105, 11148168823358641067, 254027257319761923],
    [5909733165479109627, 7329785044981310128, 5640024084088884511, 492408607649863543],
    [3329142138483098123, 17896713730835665052, 10603907349607116095, 1186274461975569536],
    [3044981523111830322, 11199564503194505274, 2341347985391722211, 1159421157887786312],
    [1606040013762900943, 16872424956023094860, 8733311871361291202, 1074080809487586340],
    [16026269644307420733, 6074423795613479295, 14760366574981565946, 2810108480959297359],
    [5103908900335244823, 1132726524029765697, 15406021326436967432, 569857565670775880],
    [11652685602852223069, 12511714850711184891, 7365262321964121657, 1340819700569967569],
    [3658049251238213258, 5320373850090280048, 16889404381687265552, 970894092261450846],
    [7770993797971184135, 17796265609738393093, 5993015252056205892, 2747957710894952998],
    [10704671869037283878, 4561130443534957008, 11961069877631596029, 2694010802100671463],
    [7669013873649851226, 10223915813488451995, 14842228319989235558, 2954994420635439144],
    [8972326816662074477, 13455406329646855945, 701049678000473454, 3172054962409979554],
    [10373516181125079071, 15471758081928867557, 15092497262132245015, 2256334202888424110],
    [2123303505118935949, 3610622440811258071, 15848238442287033968, 1853803384465349205],
    [8050294847701582381, 15746279349339642145, 8133867183626829968, 1852418913317957954],
    [7105461339935643189, 8660311065577242132, 1809742064255042611, 1393131800646379089],
    [3913989683591058215, 8865761774013153707, 17557072237749427236, 2469695357551139179],
    [6540310869754830730, 12427657709140469416, 10906101035081888141, 1011554654114613107],
    [5236249229448775550, 12859613973934190153, 7551745072248547216, 597492567541557771],
    [12663041568401047401, 7763602800843700893, 13931106752194659445, 1457862156339151179],
    [6606479803950695714, 8466960965921605651, 13692871985826395250, 3070220067322693409],
    [17605356296006240215, 1773149446805998059, 5437931929438154283, 768777049170235398],
    [11932500730746685011, 2489039454498111228, 6285769468241546649, 1609754992577837764],
    [17580478571938954461, 13211503884621376383, 3966848978979085406, 92933620365832930],
    [13917801259601324011, 7996719109669157725, 14760356699452510875, 1530260555709815815],
    [148219147315646293, 10051840283551297400, 16546025814517632939, 1447634316898698136],
    [9933502759224981881, 17521119924549620101, 9474943938236258211, 149605211191431562],
    [12880190657533531263, 8739429681530005283, 7888650611426086258, 2115865821889868145],
    [13886050162693954176, 4477900786860712108, 15385899800165966542, 1400612808554469004],
    [15997967743551280228, 10310654727974833172, 9626010695272139848, 3403230662041324411],
    [1791295077453916729, 3538428323691136903, 14519148677952751559, 3387677226053183309],
    [3854837812905780653, 18089374278081862436, 2947054540991592477, 350709625841085030],
    [13932946461494683195, 4911148716623585189, 14323346769114134703, 583305893521072062],
    [7105212386034753205, 15918415100306008040, 17075941779708593768, 1248853525640086980],
    [11168163837182462720, 1588705996073055106, 12581457074808550600, 217344365094117700],
    [11903880734033379892, 10082755681868747943, 9254464324302578201, 1397534636143934894],
    [8067976093129060963, 7557628763171476699, 10171391080161929420, 562089708172547249],
    [5836347179014831410, 12385604578965660778, 5736832808917781763, 1956892576751490155],
    [2732823438041790271, 13741601975734549840, 3262731116171114554, 2042440131297500134],
    [18391408142483843758, 2418803064216561318, 18417262940816918055, 2074189297746532714],
    [9897313736444237682, 13308216632931670050, 5146403635313568882, 1430347973349670612],
    [433939093651025320, 14165091444967624457, 7058502351169568250, 2425048399292116942],
    [10130386507322038406, 9730604511502073227, 6600780753739423059, 981160797248298864],
    [7005380063294784617, 1455061686945518334, 6810580135143161647, 544718894502166405],
    [3082864372081062203, 5976888632119591107, 18391090339848583152, 445675319366820899],
    [17106647327075515515, 1481454024819864129, 7645385397277111769, 2713633444312350173],
    [12696838798454011244, 697059278880371719, 11596055197303531733, 302133885432054579],
    [5368807469711198144, 11191489739806336802, 4189818195124935700, 2455089427350849066],
    [1528016004302732095, 12338701991166231707, 13676443366104818753, 3117391748246812865],
    [3304211590401822160, 8693811854478416222, 15495474388204768961, 3245419440163036255],
    [12617439625148876467, 12642418933709480438, 13213742360034982967, 2998753011785747150],
    [5726673009252352248, 10285482515419588005, 9261185158844885131, 901071141601394469],
    [12211740205047064888, 10984779587318567245, 10780251804252324397, 1022993565929346730],
    [7195889718027731849, 10505869930405023524, 15750547725403251945, 1918143955887908626],
    [11342572370317907010, 11387849081219383947, 4878813802317365815, 1556810808123569759],
    [15972508950449686379, 16011990395421909588, 1733783414269965816, 2628327646544429560],
    [14202557316870784989, 16516731057595078916, 6850440706107617361, 445727931494939438],
    [15983218690942753365, 8119060920933233724, 10240569746351524466, 2492245429079629036],
    [4913341369439560628, 14972420694659352438, 14300002895247946136, 307387936634339142],
    [11571529568204595080, 6260300971080690085, 4523650342561279546, 3158959095961583645],
    [16048191753704917307, 4388632687492121046, 14647848671308286023, 374309865291919058],
    [9890668558008192732, 790011793992751506, 5861289109593733365, 1590267153927097899],
    [7342264948401996975, 11104123314361068353, 2627788400945158653, 1478875012903284564],
    [7070528262135123458, 4308531784888309755, 411265053824823712, 1151516239748822043],
    [14546103775631581593, 6445246442816384689, 7319467220167634948, 1490520497558643937],
    [4683007972084640920, 10310114722270533014, 15642486938527023441, 80548211561548656],
    [11376321509400241396, 16515670760626850183, 17583512002019677191, 2288670692400087639],
    [18134389172652843125, 8949069884696365493, 15517133613792887448, 332854194173696292],
    [10556759552213821121, 11989482388219141108, 11406586164472544228, 111328600104066012],
    [8482517958682250013, 9750800572152486458, 3386268701444095957, 2755213297203831777],
    [11221297270752647927, 12748189758166845804, 10991826215636998805, 914930916666269039],
    [5007830062743224359, 7221826426675850252, 12995004000213884759, 244118184002643771],
    [7167716697226504779, 8918071975382894392, 9229943949662597624, 2458026014694576504],
    [771897354090110714, 2816275350953473554, 37994563705939797, 636657707496117836],
    [6090278849999283552, 6305415800696991394, 5737021219904061393, 2207379004441882691],
    [12273584864700537383, 17468067771234812652, 11144938667938868238, 1595850391677703095],
    [13078344499077758173, 12163837801771969666, 12691377691523628037, 2693540927818033010],
    [6468192827557644036, 8233192398247245607, 10764650681598968655, 1194669958947732477],
    [3125815738319337605, 17561312487146574005, 11048649656570828657, 3020203830476157896],
    [15379673120928697848, 12831212594059263172, 16027792360954875200, 1687481429855480163],
    [3246753492829020355, 15763556268742685622, 7131946343616921118, 1630360062585604528],
    [7318145362773654466, 7084301623495657799, 11518804328835198080, 2868061388739799482],
    [5280129267377911645, 9164876876187018920, 9238008508546067208, 1121400187615915672],
    [16340904754457104892, 13094222270299993864, 8379509023480637836, 2332707073708425197],
    [17983928159688917089, 12203987793492875302, 17985048207259580491, 1993014529659883397],
    [4530801401606938348, 6402886094742992317, 1400482794212869681, 1742509158820939111],
    [14432283252885554305, 482712639194005250, 7470676601254790177, 455033472879236793],
    [3604499013639514197, 342323805150670024, 17022638049303803964, 155443994082178536],
    [1978486236644889836, 15605684180441002676, 4198206343423572129, 1727959820175294652],
    [3795277968253822496, 17695733398306601144, 3630256330993649688, 721607267163900122],
    [4695531163806766087, 10886771449417299503, 11840039228046760786, 512525046931850958],
    [10913895217832321972, 3770030661950334370, 6151927442266275524, 1292944690970248437],
    [10599094103006592264, 12542131616281443320, 1430586969816149996, 2710974291533852549],
    [7794543208916734858, 17796298115276782566, 1304338845377675689, 2774341346828675114],
    [15413686586183710060, 4282950946959865681, 12468819903398334486, 3452887238831860906],
    [8265431794405444089, 6313720691241465735, 5387215027464943235, 2772669278500202075],
    [4092435130272977672, 8791045127581272540, 4854418211896585166, 2726501271898560425],
    [8342891172119842065, 1641792333151075246, 4571807070950757902, 2167571532713116647],
    [11303053901539226696, 12228445827917389496, 4660195488983424372, 2022750706895894083],
    [16076516080189796181, 15124482018933369217, 5913482720334837561, 2852950771344116814],
    [3463568493525523619, 16153399299030728421, 15779317044745383062, 3418212841541707148],
    [2793265555998880163, 1931316348749406945, 11288579267425521398, 42459247144223319],
    [4443542588103170464, 14145344772469271304, 4248200838437722853, 705121969194421778],
    [2921214226137148697, 1712313332591251028, 6495168436606491359, 1495389009471717127],
    [15624686375694486388, 443582740113892155, 1025100341537690547, 2799253923529665598],
    [14637145809652314319, 4488988844129063240, 13428659107962089718, 709862589335909109],
    [1968045249005411504, 12223547856440500768, 13129776061456894886, 1658666102898463454],
    [3317008230114070215, 1779868525391853127, 909275357343458871, 218146088950593227],
    [14253726626927028607, 2723497237129920254, 5983464738069683550, 1864155461063685376],
    [5521702629940914837, 1192342653473101716, 5315233943409539613, 255687440438973164],
    [3090741302049649642, 4686872950633991720, 445951849718796955, 925250925484463560],
    [9170188212931918802, 7705373954496185614, 4871003565748059678, 1052168518047901741],
    [11246922928163191173, 16031129498489333813, 4604294947161728372, 2106278240448567583],
    [16833191995032459388, 11100604248899544594, 8545287446626289170, 681273647369613699],
    [12872535865569536795, 5395251129824555391, 12690235627724623889, 3302795397492673975],
    [16055196176080587927, 10543877580999756861, 3093604625069447790, 809994217891949900],
    [1072418327572052802, 6244681026771208267, 13776436409204100397, 331463940359368379],
];

const M_T12: [[u64; 4]; 144] = [
    [6902477072542150086, 7221639482827751511, 1990569282217595855, 3220409607912989869],
    [5903681048566164378, 16503228923043335145, 3722670196623930890, 1140896713125015717],
    [4980904410419478982, 10826467472832450424, 900713949051834629, 360734860423210599],
    [13215156709089814492, 6852009750764929101, 12875360309885606457, 2977655111042830121],
    [8708544764889019386, 12467995693242677539, 16916304857210373407, 2545560780413952485],
    [3555500913630574269, 11953666945571418925, 814912162069252867, 1069221994900704823],
    [14043396070532138115, 1352786383366260828, 5772463268216227497, 2382468501258145045],
    [15058715286514775735, 2919534455330376988, 6011478722315462935, 3436864815929611916],
    [5747822252281566517, 16221434893540440739, 8114027232621015249, 3470595653539790746],
    [17341255238496725178, 17003308038716631116, 4340580200081325446, 469471952589115127],
    [11513179155460798841, 6773777953776601004, 8046974397429544201, 2236586949462193735],
    [16537902547153213365, 1809693199847241091, 16469800678846571979, 403287177782130911],
    [17094928785586417994, 2386656095295440226, 2735361612540868012, 2275168110699125122],
    [3227426277963232763, 5701141666680075796, 5129023789831223808, 343406172286331327],
    [17244151092475639290, 14007168312584407847, 9812255071685125020, 989704242875634250],
    [14213026712522693750, 12337047994983381827, 10503537055464894754, 3439373912929507741],
    [2810966539403465297, 4305105633724835391, 2343314614835874551, 832955730076273735],
    [15569552930908133890, 6435735090518845527, 5062466906863067144, 183523514204422587],
    [9187710459312047594, 15369137284799259900, 3897700945214145440, 2580156042750577871],
    [16654167252118053903, 18313364753436458327, 17869312527477066836, 988587104298212182],
    [3233271889494286655, 7122543309000988188, 14959068840002787540, 3346243421652719130],
    [13587395726199272855, 15958778855278590566, 2548752810180062559, 1608115010857152439],
    [4257979473811463986, 133289902994550613, 8498126331277310237, 187086702458984027],
    [5352352670830865400, 15774617109451185088, 10049226577197526580, 2323806862580033784],
    [11501814366956685725, 2934296439440146034, 8385398615025772079, 112170127408004517],
    [3897898536828460850, 9297389743752109686, 9309096027092965359, 1186513693866170871],
    [7535062552067618312, 6933662358414352665, 8458850695939596224, 677407033331658539],
    [14978327406775093293, 16979051249984322473, 4334851460277718511, 585544952077414118],
    [8972043816151650710, 17048194747698437559, 11980592122189385254, 3206224221943193673],
    [17537458587665360109, 6552460849215122613, 11731382243046920317, 1459204658566790946],
    [14861206247180000522, 10294103532347852435, 9347257539476397603, 1658454772184026950],
    [13317294048738838042, 8218732099048582202, 9580904531247530219, 2997102853037475436],
    [7551591306047180305, 2818535117390242238, 3345156963891813924, 2396613443339476766],
    [9106649196560987005, 10695337432157678882, 12172100952367594550, 2646891177443820865],
    [10427800360303069716, 2899600711927662304, 2140205576751010768, 143370194764622314],
    [12448414416790807716, 17045734089810171598, 5835710031290712740, 1330325702473663789],
    [7295610461349448455, 16396145670715962418, 463847759633801746, 1733483767965486052],
    [16680095079942410241, 8388892995092911268, 17114004468671733466, 3084184969240298537],
    [5211220068355749425, 8071129789367163086, 9645106182690674147, 1707293213730414064],
    [6583520209347427950, 336598246028600744, 15224190682371178907, 190323000953655092],
    [5946675841666569074, 16872735985270792237, 17263601346378515274, 1836900630365211050],
    [7061769801748076414, 14009841441184331927, 3654622180316491181, 1140463726960152884],
    [17321486515052374825, 8091135085966359986, 15932592976399888126, 3006715565356270893],
    [5161041980507120791, 13385080690453891949, 199760733069306900, 732398362837937141],
    [17748650576550995568, 16659346234129592261, 15841951448404545760, 2556529470064872718],
    [7700571948264664107, 9186813375559840334, 15459903007505284208, 30738623011941424],
    [8794580278383247557, 16013526996351388218, 346993009863965808, 768912918898078470],
    [1881867472800955058, 8954728817961453226, 18021774068630538011, 1652425282753650212],
    [13985741635216627132, 12407771987333138946, 16695206735928261022, 3421899082157330832],
    [12845439684889658790, 4597100175228550818, 17271005301649702230, 2988291970009693865],
    [8426266061661586402, 6226833420080241928, 13227131203317082702, 1354500770740590379],
    [1000990456685393204, 763124022466411999, 3119605009821028052, 3383756670960065470],
    [3012212536588859183, 17986764545341249944, 8240973039265073900, 430558483470666258],
    [15364441646349948965, 13255166992398859193, 9610915713725212386, 2988650375942215576],
    [9676139982800953280, 16167332820973923478, 18156317151746915660, 1529131524954919568],
    [13994095476444732539, 16454656444137685697, 5653899344884076879, 1985100831438215935],
    [13342781370477046359, 14289735283453433354, 8129313632367281859, 3278943630246554585],
    [5897390281593905646, 17396209291675674079, 16539039921026772993, 1194096050252399849],
    [13725558713176799851, 3951176265141491363, 12038768711153029312, 2524576079774492410],
    [1939269374347900653, 17831738007882847769, 17969681281014388062, 2141781274720337787],
    [13849847072448499313, 5354718224414138108, 810453635710387742, 155443288166824263],
    [5719070643301396179, 2964196467928967994, 1185989159056251486, 480625612805244682],
    [16831429063877779543, 16045516160534579729, 497418556463541693, 3205810368881175342],
    [4174763539291661655, 13772387214189457094, 12268630322308827937, 2946587864735233724],
    [6102063797165771622, 1970979040216477111, 7465542722701728570, 71509966124464704],
    [11951003166516425973, 15893026937288872483, 16556797592513699090, 2498937270440531777],
    [5812943746690259886, 11728555133495353803, 9975221622622977926, 1178829453428573373],
    [14817351059071272343, 9560807481432919376, 6947693421686132853, 3051956461235576498],
    [9433148624108861398, 1450882287560189542, 7016886555397825411, 2568092189185760438],
    [16598751469031836098, 10086924647981398521, 15768993193540791619, 2766159384598225159],
    [13480848767432323532, 16046435072110351751, 7669627237682079104, 3148736268903361963],
    [14351973656199165922, 3339760524052420922, 3883647249572437802, 679432466576619150],
    [16774155330277413846, 13847086973599401416, 11065548766046290345, 2447159919043633808],
    [13431738069856618795, 4270924579821422935, 4942390607758415338, 2141895200565172830],
    [6451499883225608540, 12693697503673730824, 390075300876671544, 3400358507942535425],
    [3971580952058084411, 906828161474256815, 11606856000522090163, 2175997158064755315],
    [14360351235744253538, 3360657259037310742, 2920870809073623744, 1951504798067303064],
    [15274429193106645147, 16568971909446590073, 16744715055323613080, 370543010004020768],
    [15190319687126418628, 12579656232013150270, 2649301750975996912, 490320636224842884],
    [8053783960318952533, 17460163299269935623, 6108596158814703594, 3430156163900268084],
    [9053035429916825593, 9966512860411242383, 11138443643734401738, 121986818457962145],
    [12751052833030741237, 18342682449283384686, 4900159279849472647, 2936158427931866449],
    [13723567241228161596, 10604177156852571577, 11461173017540359603, 2416493384915712984],
    [6460745423630251649, 6660166962566632507, 5665639915738439778, 2486805489959404893],
    [9973034688361616533, 16167110057518197024, 2659864786562795086, 2080243757137049668],
    [6431940367449089025, 10037987027953163493, 12286711225226702147, 2039530331420839194],
    [3259824057540573249, 2843413991021467981, 6222864817603235503, 1255455245317499620],
    [7154978998772743390, 6266639300731930013, 10612652429673185433, 1765977734066807313],
    [2591655914430026060, 3757304355784780187, 13458189432987549687, 902018481755121388],
    [4373219330607527759, 5163498430844324653, 535372625161056620, 3125679372859789105],
    [3531375930666877211, 17516029403471459293, 2287861388778179181, 222397648217419841],
    [10509307930072331514, 16501969542560200751, 4154491500790988462, 451361115354449472],
    [6371511889464986336, 4528538897593747386, 7090504553758566471, 1479867522487487676],
    [1224204763950395348, 9495269310608116016, 7434594328374228741, 40778463965586753],
    [9637800329899181560, 17047733512460316227, 5095235958438700906, 256155621215673551],
    [11135135997900173556, 16553062736144287065, 12486062585837657023, 2896690927836497525],
    [15654628036816988385, 6374851807014492473, 1797122716394711315, 1263862575911752696],
    [7788182797446126574, 12401039346283122728, 17653536864347165039, 3241609254428858143],
    [17412719078831418722, 15874421145417255320, 17076588307972608246, 3457862656590998447],
    [1083248903760531723, 13634661533785323886, 14898173371637738179, 699957942222268272],
    [9992278889899395183, 3396715107535199494, 3708557895719582735, 3188608328231378950],
    [12419912503907924644, 4087802026517750681, 10643119766260798721, 295989193326007145],
    [666672086949675636, 8507211221373316764, 11859485680580926785, 2720303591400331303],
    [4915087249587366254, 13385097202066066625, 15116620926381254972, 1250471853176376437],
    [901359597531054020, 2214918763123538256, 10085435686840006462, 3427155141390050677],
    [3662850465180983895, 4989158777455818311, 3166886711512501765, 2999764334147577029],
    [14726448358224047076, 822969261121198913, 3422078348895281234, 3209338606203772303],
    [16139856908249571807, 645033808966096673, 568952406016809807, 1483702965819540347],
    [9981673906981175908, 8616833260792358375, 6129339867864005808, 1604802851565385637],
    [9273673316364956286, 3689436948438266677, 10275734679344895750, 1780218689184307592],
    [1382879105951414990, 942203146203612659, 10720606080894597430, 2307886224252788257],
    [12076568550948233461, 11742164542033270799, 15721492085791717390, 307901112272885511],
    [15420826402181723291, 5081060504027218498, 2991323794128380773, 1686603472595082549],
    [14192134887324678940, 10332623825352476735, 944065125768037247, 2717612718998667153],
    [3809278703119524056, 6987166948326592502, 17285844270209108664, 3432498802129449463],
    [16121498736926706419, 548300714231056568, 934154162032620612, 905176164056827161],
    [12582598914591261286, 8795959041491561631, 2773771287040033770, 1051923958250483197],
    [10963627990725909456, 6459772822612726086, 7552934864069536827, 171312679765767421],
    [9616784996481499965, 2373643567723148397, 1574738703719904269, 1575230209634082144],
    [17018284274703956118, 10313498431536534402, 6760494817214363952, 490955814547412887],
    [1697249066067332098, 12724371661611917589, 235638315281331422, 1769900373214040743],
    [10235924633928133298, 5370161150952486776, 3605447678694620400, 806159613612009427],
    [882113019686136378, 10164688351988652668, 15702633345320538601, 3194132300439571591],
    [8793248213005205621, 6404604842727856560, 8533805999352870076, 1870418911566375286],
    [8824435667394842826, 9123691217427733320, 13535023643561340496, 3411570899766443899],
    [14501740111274903910, 8078923727706327435, 14743605577187262287, 3174444313082724010],
    [2192662395969884631, 14821489030564881466, 6643769071659590000, 929297359818329140],
    [2695102807322142483, 3752655954207191323, 16111132497977210052, 3236567285848856870],
    [9565538190246981229, 5441816193168062617, 8340898076953189644, 3205125279631296351],
    [1663232585350733584, 2965978511339521828, 15005120147427202576, 2532025582315057197],
    [8496069071044746883, 1314586518472352272, 213005073995133173, 2046692460403522784],
    [11718017715168897767, 17991019177575236867, 11782134955832484873, 2749375455072947405],
    [8655084581764550317, 17668294088865039121, 6874862199125251819, 593774946046162082],
    [3925382554421119336, 10189069876047665953, 598154154688080682, 378776720294168162],
    [18076197410638570885, 11550401446844228544, 5761753762452926077, 3238872714159207987],
    [1387107222522254307, 7654495700332178707, 13011531586797915713, 488041943505226287],
    [14729022787398362011, 14927495992335576630, 13199484292254356348, 1883415576403709038],
    [48636178699461173, 9464383655303594068, 11419345738588576345, 429766313226899203],
    [11325746896855201662, 13503703224335197192, 17870097717764637918, 3101254544699626636],
    [1978389362448623780, 2459939631252642825, 8428370379301623382, 160419679122719313],
    [15917441397793917909, 4387228210398769320, 11686776670529230729, 2974006904852132579],
    [7519891633130323184, 9836361601639311447, 13578454172303307275, 59600584089713905],
    [16969529632095493565, 6608439798319114777, 10860082183743688926, 1290206845248631553],
    [12429798292996189463, 4288033146968506498, 5120463726514091723, 899767444846305209],
];

/// The shipped additive-constant data of width 12.
pub closed spec fn c12_data() -> Seq<[u64; 4]> {
    C_T12@
}

/// The shipped mixing-matrix data of width 12, row-major.
pub closed spec fn m12_data() -> Seq<[u64; 4]> {
    M_T12@
}

/// The additive round constants of width 12, pinned to the shipped data.
pub fn c_t12() -> (v: Vec<[u64; 4]>)
    ensures
        v@ == c12_data(),
        v@.len() == 816,
{
    slice_to_vec(C_T12.as_slice())
}

/// The mixing matrix of width 12, pinned to the shipped data.
pub fn m_t12() -> (v: Vec<[u64; 4]>)
    ensures
        v@ == m12_data(),
        v@.len() == 144,
{
    slice_to_vec(M_T12.as_slice())
}

} // verus!
